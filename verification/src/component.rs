//! The operations of the example test component: the handlers it exports,
//! by kind, namespace and operation, and the host operations it imports, by
//! index; and the metadata with which it calls an import.
use vstd::prelude::*;
use crate::guest::{HandlerKey, HandlerRegistry, OperationKind};
use crate::util::{be32, be32_value, push_all, to_u32_bytes};

verus! {

/// The number of operations the component exports.
pub const EXPORT_COUNT: u32 = 83;

/// The number of host operations the component imports.
pub const IMPORT_COUNT: u32 = 44;

/// The `k`-th export of the component: its kind, namespace and operation.
/// Its handler is numbered `k`.
pub open spec fn export_entry(k: int) -> (OperationKind, Seq<char>, Seq<char>) {
    if k == 0 {
        (OperationKind::RequestResponse, "iota.testing.MyService"@, "emptyVoid"@)
    } else if k == 1 {
        (OperationKind::RequestResponse, "iota.testing.MyService"@, "unaryType"@)
    } else if k == 2 {
        (OperationKind::RequestResponse, "iota.testing.MyService"@, "unaryEnum"@)
    } else if k == 3 {
        (OperationKind::RequestResponse, "iota.testing.MyService"@, "unaryUUID"@)
    } else if k == 4 {
        (OperationKind::RequestResponse, "iota.testing.MyService"@, "unaryAlias"@)
    } else if k == 5 {
        (OperationKind::RequestResponse, "iota.testing.MyService"@, "unaryString"@)
    } else if k == 6 {
        (OperationKind::RequestResponse, "iota.testing.MyService"@, "unaryI64"@)
    } else if k == 7 {
        (OperationKind::RequestResponse, "iota.testing.MyService"@, "unaryI32"@)
    } else if k == 8 {
        (OperationKind::RequestResponse, "iota.testing.MyService"@, "unaryI16"@)
    } else if k == 9 {
        (OperationKind::RequestResponse, "iota.testing.MyService"@, "unaryI8"@)
    } else if k == 10 {
        (OperationKind::RequestResponse, "iota.testing.MyService"@, "unaryU64"@)
    } else if k == 11 {
        (OperationKind::RequestResponse, "iota.testing.MyService"@, "unaryU32"@)
    } else if k == 12 {
        (OperationKind::RequestResponse, "iota.testing.MyService"@, "unaryU16"@)
    } else if k == 13 {
        (OperationKind::RequestResponse, "iota.testing.MyService"@, "unaryU8"@)
    } else if k == 14 {
        (OperationKind::RequestResponse, "iota.testing.MyService"@, "unaryF64"@)
    } else if k == 15 {
        (OperationKind::RequestResponse, "iota.testing.MyService"@, "unaryF32"@)
    } else if k == 16 {
        (OperationKind::RequestResponse, "iota.testing.MyService"@, "unaryBytes"@)
    } else if k == 17 {
        (OperationKind::RequestResponse, "iota.testing.MyService"@, "unaryDatetime"@)
    } else if k == 18 {
        (OperationKind::RequestResponse, "iota.testing.MyService"@, "unaryList"@)
    } else if k == 19 {
        (OperationKind::RequestResponse, "iota.testing.MyService"@, "unaryMap"@)
    } else if k == 20 {
        (OperationKind::RequestResponse, "iota.testing.MyService"@, "funcType"@)
    } else if k == 21 {
        (OperationKind::RequestResponse, "iota.testing.MyService"@, "funcEnum"@)
    } else if k == 22 {
        (OperationKind::RequestResponse, "iota.testing.MyService"@, "funcUUID"@)
    } else if k == 23 {
        (OperationKind::RequestResponse, "iota.testing.MyService"@, "funcAlias"@)
    } else if k == 24 {
        (OperationKind::RequestResponse, "iota.testing.MyService"@, "funcString"@)
    } else if k == 25 {
        (OperationKind::RequestResponse, "iota.testing.MyService"@, "funcI64"@)
    } else if k == 26 {
        (OperationKind::RequestResponse, "iota.testing.MyService"@, "funcI32"@)
    } else if k == 27 {
        (OperationKind::RequestResponse, "iota.testing.MyService"@, "funcI16"@)
    } else if k == 28 {
        (OperationKind::RequestResponse, "iota.testing.MyService"@, "funcI8"@)
    } else if k == 29 {
        (OperationKind::RequestResponse, "iota.testing.MyService"@, "funcU64"@)
    } else if k == 30 {
        (OperationKind::RequestResponse, "iota.testing.MyService"@, "funcU32"@)
    } else if k == 31 {
        (OperationKind::RequestResponse, "iota.testing.MyService"@, "funcU16"@)
    } else if k == 32 {
        (OperationKind::RequestResponse, "iota.testing.MyService"@, "funcU8"@)
    } else if k == 33 {
        (OperationKind::RequestResponse, "iota.testing.MyService"@, "funcF64"@)
    } else if k == 34 {
        (OperationKind::RequestResponse, "iota.testing.MyService"@, "funcF32"@)
    } else if k == 35 {
        (OperationKind::RequestResponse, "iota.testing.MyService"@, "funcBytes"@)
    } else if k == 36 {
        (OperationKind::RequestResponse, "iota.testing.MyService"@, "funcDatetime"@)
    } else if k == 37 {
        (OperationKind::RequestResponse, "iota.testing.MyService"@, "funcList"@)
    } else if k == 38 {
        (OperationKind::RequestResponse, "iota.testing.MyService"@, "funcMap"@)
    } else if k == 39 {
        (OperationKind::RequestStream, "iota.testing.MyStreamer"@, "requestStreamI64"@)
    } else if k == 40 {
        (OperationKind::RequestStream, "iota.testing.MyStreamer"@, "requestStreamF64"@)
    } else if k == 41 {
        (OperationKind::RequestStream, "iota.testing.MyStreamer"@, "requestStreamType"@)
    } else if k == 42 {
        (OperationKind::RequestStream, "iota.testing.MyStreamer"@, "requestStreamEnum"@)
    } else if k == 43 {
        (OperationKind::RequestStream, "iota.testing.MyStreamer"@, "requestStreamUUID"@)
    } else if k == 44 {
        (OperationKind::RequestStream, "iota.testing.MyStreamer"@, "requestStreamAlias"@)
    } else if k == 45 {
        (OperationKind::RequestStream, "iota.testing.MyStreamer"@, "requestStreamString"@)
    } else if k == 46 {
        (OperationKind::RequestStream, "iota.testing.MyStreamer"@, "requestStreamBool"@)
    } else if k == 47 {
        (OperationKind::RequestStream, "iota.testing.MyStreamer"@, "requestStreamDatetime"@)
    } else if k == 48 {
        (OperationKind::RequestStream, "iota.testing.MyStreamer"@, "requestStreamList"@)
    } else if k == 49 {
        (OperationKind::RequestStream, "iota.testing.MyStreamer"@, "requestStreamMap"@)
    } else if k == 50 {
        (OperationKind::RequestStream, "iota.testing.MyStreamer"@, "requestStreamArgsI64"@)
    } else if k == 51 {
        (OperationKind::RequestStream, "iota.testing.MyStreamer"@, "requestStreamArgsF64"@)
    } else if k == 52 {
        (OperationKind::RequestStream, "iota.testing.MyStreamer"@, "requestStreamArgsType"@)
    } else if k == 53 {
        (OperationKind::RequestStream, "iota.testing.MyStreamer"@, "requestStreamArgsEnum"@)
    } else if k == 54 {
        (OperationKind::RequestStream, "iota.testing.MyStreamer"@, "requestStreamArgsUUID"@)
    } else if k == 55 {
        (OperationKind::RequestStream, "iota.testing.MyStreamer"@, "requestStreamArgsAlias"@)
    } else if k == 56 {
        (OperationKind::RequestStream, "iota.testing.MyStreamer"@, "requestStreamArgsString"@)
    } else if k == 57 {
        (OperationKind::RequestStream, "iota.testing.MyStreamer"@, "requestStreamArgsBool"@)
    } else if k == 58 {
        (OperationKind::RequestStream, "iota.testing.MyStreamer"@, "requestStreamArgsDatetime"@)
    } else if k == 59 {
        (OperationKind::RequestStream, "iota.testing.MyStreamer"@, "requestStreamArgsList"@)
    } else if k == 60 {
        (OperationKind::RequestStream, "iota.testing.MyStreamer"@, "requestStreamArgsMap"@)
    } else if k == 61 {
        (OperationKind::RequestChannel, "iota.testing.MyStreamer"@, "requestChannelI64"@)
    } else if k == 62 {
        (OperationKind::RequestChannel, "iota.testing.MyStreamer"@, "requestChannelF64"@)
    } else if k == 63 {
        (OperationKind::RequestChannel, "iota.testing.MyStreamer"@, "requestChannelType"@)
    } else if k == 64 {
        (OperationKind::RequestChannel, "iota.testing.MyStreamer"@, "requestChannelEnum"@)
    } else if k == 65 {
        (OperationKind::RequestChannel, "iota.testing.MyStreamer"@, "requestChannelAlias"@)
    } else if k == 66 {
        (OperationKind::RequestChannel, "iota.testing.MyStreamer"@, "requestChannelString"@)
    } else if k == 67 {
        (OperationKind::RequestChannel, "iota.testing.MyStreamer"@, "requestChannelBool"@)
    } else if k == 68 {
        (OperationKind::RequestChannel, "iota.testing.MyStreamer"@, "requestChannelDatetime"@)
    } else if k == 69 {
        (OperationKind::RequestChannel, "iota.testing.MyStreamer"@, "requestChannelList"@)
    } else if k == 70 {
        (OperationKind::RequestChannel, "iota.testing.MyStreamer"@, "requestChannelMap"@)
    } else if k == 71 {
        (OperationKind::RequestChannel, "iota.testing.MyStreamer"@, "requestChannelArgsI64"@)
    } else if k == 72 {
        (OperationKind::RequestChannel, "iota.testing.MyStreamer"@, "requestChannelArgsF64"@)
    } else if k == 73 {
        (OperationKind::RequestChannel, "iota.testing.MyStreamer"@, "requestChannelArgsType"@)
    } else if k == 74 {
        (OperationKind::RequestChannel, "iota.testing.MyStreamer"@, "requestChannelArgsEnum"@)
    } else if k == 75 {
        (OperationKind::RequestChannel, "iota.testing.MyStreamer"@, "requestChannelArgsAlias"@)
    } else if k == 76 {
        (OperationKind::RequestChannel, "iota.testing.MyStreamer"@, "requestChannelArgsString"@)
    } else if k == 77 {
        (OperationKind::RequestChannel, "iota.testing.MyStreamer"@, "requestChannelArgsBool"@)
    } else if k == 78 {
        (OperationKind::RequestChannel, "iota.testing.MyStreamer"@, "requestChannelArgsDatetime"@)
    } else if k == 79 {
        (OperationKind::RequestChannel, "iota.testing.MyStreamer"@, "requestChannelArgsList"@)
    } else if k == 80 {
        (OperationKind::RequestChannel, "iota.testing.MyStreamer"@, "requestChannelArgsMap"@)
    } else if k == 81 {
        (OperationKind::RequestChannel, "iota.testing.MyStreamer"@, "requestChannelVoid"@)
    } else {
        (OperationKind::RequestChannel, "iota.testing.MyStreamer"@, "requestChannelNonStreamOutput"@)
    }
}

/// The exports of the component, in the order they are registered, each
/// with the number of its handler.
pub open spec fn export_table() -> Seq<(OperationKind, Seq<char>, Seq<char>, u32)> {
    Seq::new(
        EXPORT_COUNT as nat,
        |k: int| (export_entry(k).0, export_entry(k).1, export_entry(k).2, k as u32),
    )
}

/// The handlers after registering the given exports in order on `m`: a
/// later registration under a key replaces an earlier one.
pub open spec fn registered(
    m: Map<HandlerKey, u32>,
    t: Seq<(OperationKind, Seq<char>, Seq<char>, u32)>,
) -> Map<HandlerKey, u32>
    decreases t.len(),
{
    if t.len() == 0 {
        m
    } else {
        registered(m, t.drop_last()).insert((t.last().0, t.last().1, t.last().2), t.last().3)
    }
}

/// The `k`-th export of the component.
fn export_entry_at(k: u32) -> (r: (OperationKind, &'static str, &'static str))
    requires
        k < EXPORT_COUNT,
    ensures
        r.0 == export_entry(k as int).0,
        r.1@ == export_entry(k as int).1,
        r.2@ == export_entry(k as int).2,
{
    match k {
        0 => (OperationKind::RequestResponse, "iota.testing.MyService", "emptyVoid"),
        1 => (OperationKind::RequestResponse, "iota.testing.MyService", "unaryType"),
        2 => (OperationKind::RequestResponse, "iota.testing.MyService", "unaryEnum"),
        3 => (OperationKind::RequestResponse, "iota.testing.MyService", "unaryUUID"),
        4 => (OperationKind::RequestResponse, "iota.testing.MyService", "unaryAlias"),
        5 => (OperationKind::RequestResponse, "iota.testing.MyService", "unaryString"),
        6 => (OperationKind::RequestResponse, "iota.testing.MyService", "unaryI64"),
        7 => (OperationKind::RequestResponse, "iota.testing.MyService", "unaryI32"),
        8 => (OperationKind::RequestResponse, "iota.testing.MyService", "unaryI16"),
        9 => (OperationKind::RequestResponse, "iota.testing.MyService", "unaryI8"),
        10 => (OperationKind::RequestResponse, "iota.testing.MyService", "unaryU64"),
        11 => (OperationKind::RequestResponse, "iota.testing.MyService", "unaryU32"),
        12 => (OperationKind::RequestResponse, "iota.testing.MyService", "unaryU16"),
        13 => (OperationKind::RequestResponse, "iota.testing.MyService", "unaryU8"),
        14 => (OperationKind::RequestResponse, "iota.testing.MyService", "unaryF64"),
        15 => (OperationKind::RequestResponse, "iota.testing.MyService", "unaryF32"),
        16 => (OperationKind::RequestResponse, "iota.testing.MyService", "unaryBytes"),
        17 => (OperationKind::RequestResponse, "iota.testing.MyService", "unaryDatetime"),
        18 => (OperationKind::RequestResponse, "iota.testing.MyService", "unaryList"),
        19 => (OperationKind::RequestResponse, "iota.testing.MyService", "unaryMap"),
        20 => (OperationKind::RequestResponse, "iota.testing.MyService", "funcType"),
        21 => (OperationKind::RequestResponse, "iota.testing.MyService", "funcEnum"),
        22 => (OperationKind::RequestResponse, "iota.testing.MyService", "funcUUID"),
        23 => (OperationKind::RequestResponse, "iota.testing.MyService", "funcAlias"),
        24 => (OperationKind::RequestResponse, "iota.testing.MyService", "funcString"),
        25 => (OperationKind::RequestResponse, "iota.testing.MyService", "funcI64"),
        26 => (OperationKind::RequestResponse, "iota.testing.MyService", "funcI32"),
        27 => (OperationKind::RequestResponse, "iota.testing.MyService", "funcI16"),
        28 => (OperationKind::RequestResponse, "iota.testing.MyService", "funcI8"),
        29 => (OperationKind::RequestResponse, "iota.testing.MyService", "funcU64"),
        30 => (OperationKind::RequestResponse, "iota.testing.MyService", "funcU32"),
        31 => (OperationKind::RequestResponse, "iota.testing.MyService", "funcU16"),
        32 => (OperationKind::RequestResponse, "iota.testing.MyService", "funcU8"),
        33 => (OperationKind::RequestResponse, "iota.testing.MyService", "funcF64"),
        34 => (OperationKind::RequestResponse, "iota.testing.MyService", "funcF32"),
        35 => (OperationKind::RequestResponse, "iota.testing.MyService", "funcBytes"),
        36 => (OperationKind::RequestResponse, "iota.testing.MyService", "funcDatetime"),
        37 => (OperationKind::RequestResponse, "iota.testing.MyService", "funcList"),
        38 => (OperationKind::RequestResponse, "iota.testing.MyService", "funcMap"),
        39 => (OperationKind::RequestStream, "iota.testing.MyStreamer", "requestStreamI64"),
        40 => (OperationKind::RequestStream, "iota.testing.MyStreamer", "requestStreamF64"),
        41 => (OperationKind::RequestStream, "iota.testing.MyStreamer", "requestStreamType"),
        42 => (OperationKind::RequestStream, "iota.testing.MyStreamer", "requestStreamEnum"),
        43 => (OperationKind::RequestStream, "iota.testing.MyStreamer", "requestStreamUUID"),
        44 => (OperationKind::RequestStream, "iota.testing.MyStreamer", "requestStreamAlias"),
        45 => (OperationKind::RequestStream, "iota.testing.MyStreamer", "requestStreamString"),
        46 => (OperationKind::RequestStream, "iota.testing.MyStreamer", "requestStreamBool"),
        47 => (OperationKind::RequestStream, "iota.testing.MyStreamer", "requestStreamDatetime"),
        48 => (OperationKind::RequestStream, "iota.testing.MyStreamer", "requestStreamList"),
        49 => (OperationKind::RequestStream, "iota.testing.MyStreamer", "requestStreamMap"),
        50 => (OperationKind::RequestStream, "iota.testing.MyStreamer", "requestStreamArgsI64"),
        51 => (OperationKind::RequestStream, "iota.testing.MyStreamer", "requestStreamArgsF64"),
        52 => (OperationKind::RequestStream, "iota.testing.MyStreamer", "requestStreamArgsType"),
        53 => (OperationKind::RequestStream, "iota.testing.MyStreamer", "requestStreamArgsEnum"),
        54 => (OperationKind::RequestStream, "iota.testing.MyStreamer", "requestStreamArgsUUID"),
        55 => (OperationKind::RequestStream, "iota.testing.MyStreamer", "requestStreamArgsAlias"),
        56 => (OperationKind::RequestStream, "iota.testing.MyStreamer", "requestStreamArgsString"),
        57 => (OperationKind::RequestStream, "iota.testing.MyStreamer", "requestStreamArgsBool"),
        58 => (OperationKind::RequestStream, "iota.testing.MyStreamer", "requestStreamArgsDatetime"),
        59 => (OperationKind::RequestStream, "iota.testing.MyStreamer", "requestStreamArgsList"),
        60 => (OperationKind::RequestStream, "iota.testing.MyStreamer", "requestStreamArgsMap"),
        61 => (OperationKind::RequestChannel, "iota.testing.MyStreamer", "requestChannelI64"),
        62 => (OperationKind::RequestChannel, "iota.testing.MyStreamer", "requestChannelF64"),
        63 => (OperationKind::RequestChannel, "iota.testing.MyStreamer", "requestChannelType"),
        64 => (OperationKind::RequestChannel, "iota.testing.MyStreamer", "requestChannelEnum"),
        65 => (OperationKind::RequestChannel, "iota.testing.MyStreamer", "requestChannelAlias"),
        66 => (OperationKind::RequestChannel, "iota.testing.MyStreamer", "requestChannelString"),
        67 => (OperationKind::RequestChannel, "iota.testing.MyStreamer", "requestChannelBool"),
        68 => (OperationKind::RequestChannel, "iota.testing.MyStreamer", "requestChannelDatetime"),
        69 => (OperationKind::RequestChannel, "iota.testing.MyStreamer", "requestChannelList"),
        70 => (OperationKind::RequestChannel, "iota.testing.MyStreamer", "requestChannelMap"),
        71 => (OperationKind::RequestChannel, "iota.testing.MyStreamer", "requestChannelArgsI64"),
        72 => (OperationKind::RequestChannel, "iota.testing.MyStreamer", "requestChannelArgsF64"),
        73 => (OperationKind::RequestChannel, "iota.testing.MyStreamer", "requestChannelArgsType"),
        74 => (OperationKind::RequestChannel, "iota.testing.MyStreamer", "requestChannelArgsEnum"),
        75 => (OperationKind::RequestChannel, "iota.testing.MyStreamer", "requestChannelArgsAlias"),
        76 => (OperationKind::RequestChannel, "iota.testing.MyStreamer", "requestChannelArgsString"),
        77 => (OperationKind::RequestChannel, "iota.testing.MyStreamer", "requestChannelArgsBool"),
        78 => (OperationKind::RequestChannel, "iota.testing.MyStreamer", "requestChannelArgsDatetime"),
        79 => (OperationKind::RequestChannel, "iota.testing.MyStreamer", "requestChannelArgsList"),
        80 => (OperationKind::RequestChannel, "iota.testing.MyStreamer", "requestChannelArgsMap"),
        81 => (OperationKind::RequestChannel, "iota.testing.MyStreamer", "requestChannelVoid"),
        _ => (OperationKind::RequestChannel, "iota.testing.MyStreamer", "requestChannelNonStreamOutput"),
    }
}

/// Registers the handlers the component exports, numbered by their place in
/// the table.
pub fn init_exports(registry: &mut HandlerRegistry)
    ensures
        final(registry)@ == registered(old(registry)@, export_table()),
{
    let mut k: u32 = 0;
    while k < EXPORT_COUNT
        invariant
            k <= EXPORT_COUNT,
            registry@ == registered(old(registry)@, export_table().take(k as int)),
        decreases EXPORT_COUNT - k,
    {
        let (kind, namespace, operation) = export_entry_at(k);
        registry.register(kind, String::from_str(namespace), String::from_str(operation), k);
        proof {
            assert(export_table().take(k + 1).drop_last() =~= export_table().take(k as int));
        }
        k = k + 1;
    }
    proof {
        assert(export_table().take(EXPORT_COUNT as int) =~= export_table());
    }
}

/// A host operation the component imports.
#[derive(Debug)]
pub struct ImportEntry {
    /// The index the component calls the operation by.
    pub index: u32,
    /// The kind of the operation.
    pub kind: OperationKind,
    /// The namespace of the operation.
    pub namespace: String,
    /// The operation.
    pub operation: String,
}

/// The abstract content of an import.
pub struct ImportView {
    pub index: u32,
    pub kind: OperationKind,
    pub namespace: Seq<char>,
    pub operation: Seq<char>,
}

/// The view of an import.
pub open spec fn import_view(e: ImportEntry) -> ImportView {
    ImportView { index: e.index, kind: e.kind, namespace: e.namespace@, operation: e.operation@ }
}

/// The views of a list of imports.
pub open spec fn import_views(s: Seq<ImportEntry>) -> Seq<ImportView> {
    s.map_values(|e: ImportEntry| import_view(e))
}

/// The name of the `k`-th import.
pub open spec fn import_operation(k: int) -> Seq<char> {
    if k == 0 {
        "requestStreamI64"@
    } else if k == 1 {
        "requestStreamF64"@
    } else if k == 2 {
        "requestStreamType"@
    } else if k == 3 {
        "requestStreamEnum"@
    } else if k == 4 {
        "requestStreamUUID"@
    } else if k == 5 {
        "requestStreamAlias"@
    } else if k == 6 {
        "requestStreamString"@
    } else if k == 7 {
        "requestStreamBool"@
    } else if k == 8 {
        "requestStreamDatetime"@
    } else if k == 9 {
        "requestStreamList"@
    } else if k == 10 {
        "requestStreamMap"@
    } else if k == 11 {
        "requestStreamArgsI64"@
    } else if k == 12 {
        "requestStreamArgsF64"@
    } else if k == 13 {
        "requestStreamArgsType"@
    } else if k == 14 {
        "requestStreamArgsEnum"@
    } else if k == 15 {
        "requestStreamArgsUUID"@
    } else if k == 16 {
        "requestStreamArgsAlias"@
    } else if k == 17 {
        "requestStreamArgsString"@
    } else if k == 18 {
        "requestStreamArgsBool"@
    } else if k == 19 {
        "requestStreamArgsDatetime"@
    } else if k == 20 {
        "requestStreamArgsList"@
    } else if k == 21 {
        "requestStreamArgsMap"@
    } else if k == 22 {
        "requestChannelI64"@
    } else if k == 23 {
        "requestChannelF64"@
    } else if k == 24 {
        "requestChannelType"@
    } else if k == 25 {
        "requestChannelEnum"@
    } else if k == 26 {
        "requestChannelAlias"@
    } else if k == 27 {
        "requestChannelString"@
    } else if k == 28 {
        "requestChannelBool"@
    } else if k == 29 {
        "requestChannelDatetime"@
    } else if k == 30 {
        "requestChannelList"@
    } else if k == 31 {
        "requestChannelMap"@
    } else if k == 32 {
        "requestChannelArgsI64"@
    } else if k == 33 {
        "requestChannelArgsF64"@
    } else if k == 34 {
        "requestChannelArgsType"@
    } else if k == 35 {
        "requestChannelArgsEnum"@
    } else if k == 36 {
        "requestChannelArgsAlias"@
    } else if k == 37 {
        "requestChannelArgsString"@
    } else if k == 38 {
        "requestChannelArgsBool"@
    } else if k == 39 {
        "requestChannelArgsDatetime"@
    } else if k == 40 {
        "requestChannelArgsList"@
    } else if k == 41 {
        "requestChannelArgsMap"@
    } else if k == 42 {
        "requestChannelVoid"@
    } else {
        "requestChannelNonStreamOutput"@
    }
}

/// The kind of the `k`-th import: request/stream for the first 22,
/// request/channel after them.
pub open spec fn import_kind(k: int) -> OperationKind {
    if k < 22 {
        OperationKind::RequestStream
    } else {
        OperationKind::RequestChannel
    }
}

/// The imports of the component, in order: the `k`-th has index `k`.
pub open spec fn import_table() -> Seq<ImportView> {
    Seq::new(
        IMPORT_COUNT as nat,
        |k: int|
            ImportView {
                index: k as u32,
                kind: import_kind(k),
                namespace: "iota.testing.MyProvider"@,
                operation: import_operation(k),
            },
    )
}

/// The name of the `k`-th import.
fn import_operation_at(k: u32) -> (r: &'static str)
    requires
        k < IMPORT_COUNT,
    ensures
        r@ == import_operation(k as int),
{
    match k {
        0 => "requestStreamI64",
        1 => "requestStreamF64",
        2 => "requestStreamType",
        3 => "requestStreamEnum",
        4 => "requestStreamUUID",
        5 => "requestStreamAlias",
        6 => "requestStreamString",
        7 => "requestStreamBool",
        8 => "requestStreamDatetime",
        9 => "requestStreamList",
        10 => "requestStreamMap",
        11 => "requestStreamArgsI64",
        12 => "requestStreamArgsF64",
        13 => "requestStreamArgsType",
        14 => "requestStreamArgsEnum",
        15 => "requestStreamArgsUUID",
        16 => "requestStreamArgsAlias",
        17 => "requestStreamArgsString",
        18 => "requestStreamArgsBool",
        19 => "requestStreamArgsDatetime",
        20 => "requestStreamArgsList",
        21 => "requestStreamArgsMap",
        22 => "requestChannelI64",
        23 => "requestChannelF64",
        24 => "requestChannelType",
        25 => "requestChannelEnum",
        26 => "requestChannelAlias",
        27 => "requestChannelString",
        28 => "requestChannelBool",
        29 => "requestChannelDatetime",
        30 => "requestChannelList",
        31 => "requestChannelMap",
        32 => "requestChannelArgsI64",
        33 => "requestChannelArgsF64",
        34 => "requestChannelArgsType",
        35 => "requestChannelArgsEnum",
        36 => "requestChannelArgsAlias",
        37 => "requestChannelArgsString",
        38 => "requestChannelArgsBool",
        39 => "requestChannelArgsDatetime",
        40 => "requestChannelArgsList",
        41 => "requestChannelArgsMap",
        42 => "requestChannelVoid",
        _ => "requestChannelNonStreamOutput",
    }
}

/// Adds the host operations the component imports, in order.
pub fn init_imports(imports: &mut Vec<ImportEntry>)
    ensures
        import_views(final(imports)@) == import_views(old(imports)@) + import_table(),
{
    let mut k: u32 = 0;
    while k < IMPORT_COUNT
        invariant
            k <= IMPORT_COUNT,
            import_views(imports@) == import_views(old(imports)@) + import_table().take(k as int),
        decreases IMPORT_COUNT - k,
    {
        let kind = if k < 22 {
            OperationKind::RequestStream
        } else {
            OperationKind::RequestChannel
        };
        let entry = ImportEntry {
            index: k,
            kind,
            namespace: String::from_str("iota.testing.MyProvider"),
            operation: String::from_str(import_operation_at(k)),
        };
        let ghost before = imports@;
        imports.push(entry);
        proof {
            assert(import_views(imports@) =~= import_views(before).push(import_table()[k as int]));
            assert(import_views(old(imports)@) + import_table().take(k + 1) =~= (import_views(
                old(imports)@,
            ) + import_table().take(k as int)).push(import_table()[k as int]));
        }
        k = k + 1;
    }
    proof {
        assert(import_table().take(IMPORT_COUNT as int) =~= import_table());
    }
}

/// The metadata of a call to an import: its index in four big-endian
/// bytes, then four zero bytes.
pub open spec fn request_metadata_bytes(index: u32) -> Seq<u8> {
    be32(index) + seq![0u8, 0u8, 0u8, 0u8]
}

/// The metadata with which the component calls the import with the given
/// index.
pub fn request_metadata(index: u32) -> (r: Vec<u8>)
    ensures
        r@ == request_metadata_bytes(index),
{
    let mut r = to_u32_bytes(index);
    push_all(&mut r, &[0u8, 0u8, 0u8, 0u8]);
    r
}

/// A call to the `k`-th import names it: the index its metadata carries is
/// the index under which the table registers that import.
pub proof fn law_request_metadata_names_import(k: int)
    requires
        0 <= k < IMPORT_COUNT,
    ensures
        ({
            let m = request_metadata_bytes(k as u32);
            be32_value(m[0], m[1], m[2], m[3]) == import_table()[k].index
        }),
        import_table()[k].index == k,
{
    crate::util::lemma_be32_roundtrip(k as u32);
}

/// The handlers the component exports, as its schema lists them: the
/// operations of `iota.testing.MyService` as request/response, then those of
/// `iota.testing.MyStreamer` as request/stream and request/channel, each
/// with the number of its handler.
pub open spec fn schema_exports() -> Seq<(OperationKind, Seq<char>, Seq<char>, u32)> {
    seq![
        (OperationKind::RequestResponse, "iota.testing.MyService"@, "emptyVoid"@, 0u32),
        (OperationKind::RequestResponse, "iota.testing.MyService"@, "unaryType"@, 1u32),
        (OperationKind::RequestResponse, "iota.testing.MyService"@, "unaryEnum"@, 2u32),
        (OperationKind::RequestResponse, "iota.testing.MyService"@, "unaryUUID"@, 3u32),
        (OperationKind::RequestResponse, "iota.testing.MyService"@, "unaryAlias"@, 4u32),
        (OperationKind::RequestResponse, "iota.testing.MyService"@, "unaryString"@, 5u32),
        (OperationKind::RequestResponse, "iota.testing.MyService"@, "unaryI64"@, 6u32),
        (OperationKind::RequestResponse, "iota.testing.MyService"@, "unaryI32"@, 7u32),
        (OperationKind::RequestResponse, "iota.testing.MyService"@, "unaryI16"@, 8u32),
        (OperationKind::RequestResponse, "iota.testing.MyService"@, "unaryI8"@, 9u32),
        (OperationKind::RequestResponse, "iota.testing.MyService"@, "unaryU64"@, 10u32),
        (OperationKind::RequestResponse, "iota.testing.MyService"@, "unaryU32"@, 11u32),
        (OperationKind::RequestResponse, "iota.testing.MyService"@, "unaryU16"@, 12u32),
        (OperationKind::RequestResponse, "iota.testing.MyService"@, "unaryU8"@, 13u32),
        (OperationKind::RequestResponse, "iota.testing.MyService"@, "unaryF64"@, 14u32),
        (OperationKind::RequestResponse, "iota.testing.MyService"@, "unaryF32"@, 15u32),
        (OperationKind::RequestResponse, "iota.testing.MyService"@, "unaryBytes"@, 16u32),
        (OperationKind::RequestResponse, "iota.testing.MyService"@, "unaryDatetime"@, 17u32),
        (OperationKind::RequestResponse, "iota.testing.MyService"@, "unaryList"@, 18u32),
        (OperationKind::RequestResponse, "iota.testing.MyService"@, "unaryMap"@, 19u32),
        (OperationKind::RequestResponse, "iota.testing.MyService"@, "funcType"@, 20u32),
        (OperationKind::RequestResponse, "iota.testing.MyService"@, "funcEnum"@, 21u32),
        (OperationKind::RequestResponse, "iota.testing.MyService"@, "funcUUID"@, 22u32),
        (OperationKind::RequestResponse, "iota.testing.MyService"@, "funcAlias"@, 23u32),
        (OperationKind::RequestResponse, "iota.testing.MyService"@, "funcString"@, 24u32),
        (OperationKind::RequestResponse, "iota.testing.MyService"@, "funcI64"@, 25u32),
        (OperationKind::RequestResponse, "iota.testing.MyService"@, "funcI32"@, 26u32),
        (OperationKind::RequestResponse, "iota.testing.MyService"@, "funcI16"@, 27u32),
        (OperationKind::RequestResponse, "iota.testing.MyService"@, "funcI8"@, 28u32),
        (OperationKind::RequestResponse, "iota.testing.MyService"@, "funcU64"@, 29u32),
        (OperationKind::RequestResponse, "iota.testing.MyService"@, "funcU32"@, 30u32),
        (OperationKind::RequestResponse, "iota.testing.MyService"@, "funcU16"@, 31u32),
        (OperationKind::RequestResponse, "iota.testing.MyService"@, "funcU8"@, 32u32),
        (OperationKind::RequestResponse, "iota.testing.MyService"@, "funcF64"@, 33u32),
        (OperationKind::RequestResponse, "iota.testing.MyService"@, "funcF32"@, 34u32),
        (OperationKind::RequestResponse, "iota.testing.MyService"@, "funcBytes"@, 35u32),
        (OperationKind::RequestResponse, "iota.testing.MyService"@, "funcDatetime"@, 36u32),
        (OperationKind::RequestResponse, "iota.testing.MyService"@, "funcList"@, 37u32),
        (OperationKind::RequestResponse, "iota.testing.MyService"@, "funcMap"@, 38u32),
        (OperationKind::RequestStream, "iota.testing.MyStreamer"@, "requestStreamI64"@, 39u32),
        (OperationKind::RequestStream, "iota.testing.MyStreamer"@, "requestStreamF64"@, 40u32),
        (OperationKind::RequestStream, "iota.testing.MyStreamer"@, "requestStreamType"@, 41u32),
        (OperationKind::RequestStream, "iota.testing.MyStreamer"@, "requestStreamEnum"@, 42u32),
        (OperationKind::RequestStream, "iota.testing.MyStreamer"@, "requestStreamUUID"@, 43u32),
        (OperationKind::RequestStream, "iota.testing.MyStreamer"@, "requestStreamAlias"@, 44u32),
        (OperationKind::RequestStream, "iota.testing.MyStreamer"@, "requestStreamString"@, 45u32),
        (OperationKind::RequestStream, "iota.testing.MyStreamer"@, "requestStreamBool"@, 46u32),
        (OperationKind::RequestStream, "iota.testing.MyStreamer"@, "requestStreamDatetime"@, 47u32),
        (OperationKind::RequestStream, "iota.testing.MyStreamer"@, "requestStreamList"@, 48u32),
        (OperationKind::RequestStream, "iota.testing.MyStreamer"@, "requestStreamMap"@, 49u32),
        (OperationKind::RequestStream, "iota.testing.MyStreamer"@, "requestStreamArgsI64"@, 50u32),
        (OperationKind::RequestStream, "iota.testing.MyStreamer"@, "requestStreamArgsF64"@, 51u32),
        (OperationKind::RequestStream, "iota.testing.MyStreamer"@, "requestStreamArgsType"@, 52u32),
        (OperationKind::RequestStream, "iota.testing.MyStreamer"@, "requestStreamArgsEnum"@, 53u32),
        (OperationKind::RequestStream, "iota.testing.MyStreamer"@, "requestStreamArgsUUID"@, 54u32),
        (OperationKind::RequestStream, "iota.testing.MyStreamer"@, "requestStreamArgsAlias"@, 55u32),
        (OperationKind::RequestStream, "iota.testing.MyStreamer"@, "requestStreamArgsString"@, 56u32),
        (OperationKind::RequestStream, "iota.testing.MyStreamer"@, "requestStreamArgsBool"@, 57u32),
        (OperationKind::RequestStream, "iota.testing.MyStreamer"@, "requestStreamArgsDatetime"@, 58u32),
        (OperationKind::RequestStream, "iota.testing.MyStreamer"@, "requestStreamArgsList"@, 59u32),
        (OperationKind::RequestStream, "iota.testing.MyStreamer"@, "requestStreamArgsMap"@, 60u32),
        (OperationKind::RequestChannel, "iota.testing.MyStreamer"@, "requestChannelI64"@, 61u32),
        (OperationKind::RequestChannel, "iota.testing.MyStreamer"@, "requestChannelF64"@, 62u32),
        (OperationKind::RequestChannel, "iota.testing.MyStreamer"@, "requestChannelType"@, 63u32),
        (OperationKind::RequestChannel, "iota.testing.MyStreamer"@, "requestChannelEnum"@, 64u32),
        (OperationKind::RequestChannel, "iota.testing.MyStreamer"@, "requestChannelAlias"@, 65u32),
        (OperationKind::RequestChannel, "iota.testing.MyStreamer"@, "requestChannelString"@, 66u32),
        (OperationKind::RequestChannel, "iota.testing.MyStreamer"@, "requestChannelBool"@, 67u32),
        (OperationKind::RequestChannel, "iota.testing.MyStreamer"@, "requestChannelDatetime"@, 68u32),
        (OperationKind::RequestChannel, "iota.testing.MyStreamer"@, "requestChannelList"@, 69u32),
        (OperationKind::RequestChannel, "iota.testing.MyStreamer"@, "requestChannelMap"@, 70u32),
        (OperationKind::RequestChannel, "iota.testing.MyStreamer"@, "requestChannelArgsI64"@, 71u32),
        (OperationKind::RequestChannel, "iota.testing.MyStreamer"@, "requestChannelArgsF64"@, 72u32),
        (OperationKind::RequestChannel, "iota.testing.MyStreamer"@, "requestChannelArgsType"@, 73u32),
        (OperationKind::RequestChannel, "iota.testing.MyStreamer"@, "requestChannelArgsEnum"@, 74u32),
        (OperationKind::RequestChannel, "iota.testing.MyStreamer"@, "requestChannelArgsAlias"@, 75u32),
        (OperationKind::RequestChannel, "iota.testing.MyStreamer"@, "requestChannelArgsString"@, 76u32),
        (OperationKind::RequestChannel, "iota.testing.MyStreamer"@, "requestChannelArgsBool"@, 77u32),
        (OperationKind::RequestChannel, "iota.testing.MyStreamer"@, "requestChannelArgsDatetime"@, 78u32),
        (OperationKind::RequestChannel, "iota.testing.MyStreamer"@, "requestChannelArgsList"@, 79u32),
        (OperationKind::RequestChannel, "iota.testing.MyStreamer"@, "requestChannelArgsMap"@, 80u32),
        (OperationKind::RequestChannel, "iota.testing.MyStreamer"@, "requestChannelVoid"@, 81u32),
        (OperationKind::RequestChannel, "iota.testing.MyStreamer"@, "requestChannelNonStreamOutput"@, 82u32)
    ]
}

/// The exports registered are those of the schema, in its order.
pub proof fn law_exports_follow_schema()
    ensures
        export_table() == schema_exports(),
        export_table().len() == 83,
{
    assert(export_table() =~= schema_exports());
}

/// The host operations the component imports, as its schema lists them:
/// the operations of `iota.testing.MyProvider`, request/stream then
/// request/channel, each under its index.
pub open spec fn schema_imports() -> Seq<ImportView> {
    seq![
        ImportView {
            index: 0u32,
            kind: OperationKind::RequestStream,
            namespace: "iota.testing.MyProvider"@,
            operation: "requestStreamI64"@,
        },
        ImportView {
            index: 1u32,
            kind: OperationKind::RequestStream,
            namespace: "iota.testing.MyProvider"@,
            operation: "requestStreamF64"@,
        },
        ImportView {
            index: 2u32,
            kind: OperationKind::RequestStream,
            namespace: "iota.testing.MyProvider"@,
            operation: "requestStreamType"@,
        },
        ImportView {
            index: 3u32,
            kind: OperationKind::RequestStream,
            namespace: "iota.testing.MyProvider"@,
            operation: "requestStreamEnum"@,
        },
        ImportView {
            index: 4u32,
            kind: OperationKind::RequestStream,
            namespace: "iota.testing.MyProvider"@,
            operation: "requestStreamUUID"@,
        },
        ImportView {
            index: 5u32,
            kind: OperationKind::RequestStream,
            namespace: "iota.testing.MyProvider"@,
            operation: "requestStreamAlias"@,
        },
        ImportView {
            index: 6u32,
            kind: OperationKind::RequestStream,
            namespace: "iota.testing.MyProvider"@,
            operation: "requestStreamString"@,
        },
        ImportView {
            index: 7u32,
            kind: OperationKind::RequestStream,
            namespace: "iota.testing.MyProvider"@,
            operation: "requestStreamBool"@,
        },
        ImportView {
            index: 8u32,
            kind: OperationKind::RequestStream,
            namespace: "iota.testing.MyProvider"@,
            operation: "requestStreamDatetime"@,
        },
        ImportView {
            index: 9u32,
            kind: OperationKind::RequestStream,
            namespace: "iota.testing.MyProvider"@,
            operation: "requestStreamList"@,
        },
        ImportView {
            index: 10u32,
            kind: OperationKind::RequestStream,
            namespace: "iota.testing.MyProvider"@,
            operation: "requestStreamMap"@,
        },
        ImportView {
            index: 11u32,
            kind: OperationKind::RequestStream,
            namespace: "iota.testing.MyProvider"@,
            operation: "requestStreamArgsI64"@,
        },
        ImportView {
            index: 12u32,
            kind: OperationKind::RequestStream,
            namespace: "iota.testing.MyProvider"@,
            operation: "requestStreamArgsF64"@,
        },
        ImportView {
            index: 13u32,
            kind: OperationKind::RequestStream,
            namespace: "iota.testing.MyProvider"@,
            operation: "requestStreamArgsType"@,
        },
        ImportView {
            index: 14u32,
            kind: OperationKind::RequestStream,
            namespace: "iota.testing.MyProvider"@,
            operation: "requestStreamArgsEnum"@,
        },
        ImportView {
            index: 15u32,
            kind: OperationKind::RequestStream,
            namespace: "iota.testing.MyProvider"@,
            operation: "requestStreamArgsUUID"@,
        },
        ImportView {
            index: 16u32,
            kind: OperationKind::RequestStream,
            namespace: "iota.testing.MyProvider"@,
            operation: "requestStreamArgsAlias"@,
        },
        ImportView {
            index: 17u32,
            kind: OperationKind::RequestStream,
            namespace: "iota.testing.MyProvider"@,
            operation: "requestStreamArgsString"@,
        },
        ImportView {
            index: 18u32,
            kind: OperationKind::RequestStream,
            namespace: "iota.testing.MyProvider"@,
            operation: "requestStreamArgsBool"@,
        },
        ImportView {
            index: 19u32,
            kind: OperationKind::RequestStream,
            namespace: "iota.testing.MyProvider"@,
            operation: "requestStreamArgsDatetime"@,
        },
        ImportView {
            index: 20u32,
            kind: OperationKind::RequestStream,
            namespace: "iota.testing.MyProvider"@,
            operation: "requestStreamArgsList"@,
        },
        ImportView {
            index: 21u32,
            kind: OperationKind::RequestStream,
            namespace: "iota.testing.MyProvider"@,
            operation: "requestStreamArgsMap"@,
        },
        ImportView {
            index: 22u32,
            kind: OperationKind::RequestChannel,
            namespace: "iota.testing.MyProvider"@,
            operation: "requestChannelI64"@,
        },
        ImportView {
            index: 23u32,
            kind: OperationKind::RequestChannel,
            namespace: "iota.testing.MyProvider"@,
            operation: "requestChannelF64"@,
        },
        ImportView {
            index: 24u32,
            kind: OperationKind::RequestChannel,
            namespace: "iota.testing.MyProvider"@,
            operation: "requestChannelType"@,
        },
        ImportView {
            index: 25u32,
            kind: OperationKind::RequestChannel,
            namespace: "iota.testing.MyProvider"@,
            operation: "requestChannelEnum"@,
        },
        ImportView {
            index: 26u32,
            kind: OperationKind::RequestChannel,
            namespace: "iota.testing.MyProvider"@,
            operation: "requestChannelAlias"@,
        },
        ImportView {
            index: 27u32,
            kind: OperationKind::RequestChannel,
            namespace: "iota.testing.MyProvider"@,
            operation: "requestChannelString"@,
        },
        ImportView {
            index: 28u32,
            kind: OperationKind::RequestChannel,
            namespace: "iota.testing.MyProvider"@,
            operation: "requestChannelBool"@,
        },
        ImportView {
            index: 29u32,
            kind: OperationKind::RequestChannel,
            namespace: "iota.testing.MyProvider"@,
            operation: "requestChannelDatetime"@,
        },
        ImportView {
            index: 30u32,
            kind: OperationKind::RequestChannel,
            namespace: "iota.testing.MyProvider"@,
            operation: "requestChannelList"@,
        },
        ImportView {
            index: 31u32,
            kind: OperationKind::RequestChannel,
            namespace: "iota.testing.MyProvider"@,
            operation: "requestChannelMap"@,
        },
        ImportView {
            index: 32u32,
            kind: OperationKind::RequestChannel,
            namespace: "iota.testing.MyProvider"@,
            operation: "requestChannelArgsI64"@,
        },
        ImportView {
            index: 33u32,
            kind: OperationKind::RequestChannel,
            namespace: "iota.testing.MyProvider"@,
            operation: "requestChannelArgsF64"@,
        },
        ImportView {
            index: 34u32,
            kind: OperationKind::RequestChannel,
            namespace: "iota.testing.MyProvider"@,
            operation: "requestChannelArgsType"@,
        },
        ImportView {
            index: 35u32,
            kind: OperationKind::RequestChannel,
            namespace: "iota.testing.MyProvider"@,
            operation: "requestChannelArgsEnum"@,
        },
        ImportView {
            index: 36u32,
            kind: OperationKind::RequestChannel,
            namespace: "iota.testing.MyProvider"@,
            operation: "requestChannelArgsAlias"@,
        },
        ImportView {
            index: 37u32,
            kind: OperationKind::RequestChannel,
            namespace: "iota.testing.MyProvider"@,
            operation: "requestChannelArgsString"@,
        },
        ImportView {
            index: 38u32,
            kind: OperationKind::RequestChannel,
            namespace: "iota.testing.MyProvider"@,
            operation: "requestChannelArgsBool"@,
        },
        ImportView {
            index: 39u32,
            kind: OperationKind::RequestChannel,
            namespace: "iota.testing.MyProvider"@,
            operation: "requestChannelArgsDatetime"@,
        },
        ImportView {
            index: 40u32,
            kind: OperationKind::RequestChannel,
            namespace: "iota.testing.MyProvider"@,
            operation: "requestChannelArgsList"@,
        },
        ImportView {
            index: 41u32,
            kind: OperationKind::RequestChannel,
            namespace: "iota.testing.MyProvider"@,
            operation: "requestChannelArgsMap"@,
        },
        ImportView {
            index: 42u32,
            kind: OperationKind::RequestChannel,
            namespace: "iota.testing.MyProvider"@,
            operation: "requestChannelVoid"@,
        },
        ImportView {
            index: 43u32,
            kind: OperationKind::RequestChannel,
            namespace: "iota.testing.MyProvider"@,
            operation: "requestChannelNonStreamOutput"@,
        }
    ]
}

/// The imports added are those of the schema, in its order, with their
/// indices.
pub proof fn law_imports_follow_schema()
    ensures
        import_table() == schema_imports(),
        import_table().len() == 44,
{
    assert(import_table() =~= schema_imports());
}

} // verus!
