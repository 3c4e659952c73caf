use wasmrs::schema::{MyEnum, MyOtherType};

#[test]
fn my_enum_conversions() {
    assert_eq!(MyEnum::try_from(0), Ok(MyEnum::One));
    assert_eq!(MyEnum::try_from(2), Ok(MyEnum::Three));
    assert_eq!(MyEnum::try_from(3).unwrap_err(), "3 is not a valid index for MyEnum");
    assert_eq!(MyEnum::Two.into_u32(), 1);
    assert_eq!(MyEnum::Three.into_u32(), 2);
    assert_eq!(MyEnum::One.name(), "one");
    assert_eq!(MyEnum::Three.name(), "three");
    let t = MyOtherType { foo: "a".to_owned(), bar: "b".to_owned() };
    assert_eq!(t.foo, "a");
}
