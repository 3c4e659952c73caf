use wasmrs::component::{
    init_exports, init_imports, request_metadata, EXPORT_COUNT, IMPORT_COUNT,
};
use wasmrs::guest::{HandlerRegistry, OperationKind};

fn s(x: &str) -> String {
    x.to_owned()
}

#[test]
fn exports_registered() {
    let mut registry = HandlerRegistry::new();
    init_exports(&mut registry);
    assert_eq!(EXPORT_COUNT, 83);
    let service = s("iota.testing.MyService");
    let streamer = s("iota.testing.MyStreamer");
    assert_eq!(registry.lookup(OperationKind::RequestResponse, &service, &s("emptyVoid")), Some(0));
    assert_eq!(registry.lookup(OperationKind::RequestResponse, &service, &s("funcMap")), Some(38));
    assert_eq!(
        registry.lookup(OperationKind::RequestStream, &streamer, &s("requestStreamI64")),
        Some(39)
    );
    assert_eq!(
        registry.lookup(OperationKind::RequestChannel, &streamer, &s("requestChannelNonStreamOutput")),
        Some(82)
    );
    assert_eq!(registry.lookup(OperationKind::RequestStream, &service, &s("emptyVoid")), None);
}

#[test]
fn imports_added() {
    let mut imports = Vec::new();
    init_imports(&mut imports);
    assert_eq!(imports.len(), IMPORT_COUNT as usize);
    assert_eq!(imports.len(), 44);
    for (k, e) in imports.iter().enumerate() {
        assert_eq!(e.index as usize, k);
        assert_eq!(e.namespace, "iota.testing.MyProvider");
    }
    assert_eq!(imports[0].operation, "requestStreamI64");
    assert_eq!(imports[0].kind, OperationKind::RequestStream);
    assert_eq!(imports[21].operation, "requestStreamArgsMap");
    assert_eq!(imports[22].operation, "requestChannelI64");
    assert_eq!(imports[22].kind, OperationKind::RequestChannel);
    assert_eq!(imports[43].operation, "requestChannelNonStreamOutput");
}

#[test]
fn import_call_metadata() {
    assert_eq!(request_metadata(0), vec![0, 0, 0, 0, 0, 0, 0, 0]);
    assert_eq!(request_metadata(22), vec![0, 0, 0, 22, 0, 0, 0, 0]);
}
