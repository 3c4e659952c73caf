//! Types of an example interface schema that guests and hosts exchange.
use vstd::prelude::*;
use crate::kinds::invalid_index_message;
use crate::text::decimal_string;

verus! {

/// A pair of strings.
#[derive(Debug, Clone)]
pub struct MyOtherType {
    /// The first string.
    pub foo: String,
    /// The second string.
    pub bar: String,
}

/// MyEnum is an enumeration.
#[derive(Copy, Clone, PartialEq, Eq, Structural, Debug)]
pub enum MyEnum {
    /// ONE value
    One,
    /// TWO value
    Two,
    /// THREE value
    Three,
}

/// The index of each value of `MyEnum`.
pub open spec fn my_enum_index(e: MyEnum) -> nat {
    match e {
        MyEnum::One => 0,
        MyEnum::Two => 1,
        MyEnum::Three => 2,
    }
}

/// The value of `MyEnum` with index `i`, if there is one.
pub open spec fn my_enum_of_index(i: int) -> Option<MyEnum> {
    if i == 0 {
        Some(MyEnum::One)
    } else if i == 1 {
        Some(MyEnum::Two)
    } else if i == 2 {
        Some(MyEnum::Three)
    } else {
        None
    }
}

impl MyEnum {
    /// The value with the given index, or an error message naming the
    /// index.
    pub fn try_from(index: u32) -> (r: Result<MyEnum, String>)
        ensures
            r is Ok <==> my_enum_of_index(index as int) is Some,
            r matches Ok(e) ==> my_enum_of_index(index as int) == Some(e),
            r matches Err(s) ==> s@ == invalid_index_message(index as nat, "MyEnum"@),
    {
        match index {
            0 => Ok(MyEnum::One),
            1 => Ok(MyEnum::Two),
            2 => Ok(MyEnum::Three),
            _ => {
                let mut s = decimal_string(index as u64);
                s.append(" is not a valid index for ");
                s.append("MyEnum");
                Err(s)
            },
        }
    }

    /// The index of the value. `One` has none to give.
    pub fn into_u32(self) -> (r: u32)
        requires
            self != MyEnum::One,
        ensures
            r == my_enum_index(self),
    {
        match self {
            MyEnum::One => 0,
            MyEnum::Two => 1,
            MyEnum::Three => 2,
        }
    }

    /// The display name of the value. The schema gives `Two` none.
    pub fn name(&self) -> (r: &'static str)
        requires
            *self != MyEnum::Two,
        ensures
            r@ == (if *self == MyEnum::One { "one"@ } else { "three"@ }),
    {
        match self {
            MyEnum::One => "one",
            MyEnum::Two => {
                proof {
                    assert(false);
                }
                ""
            },
            MyEnum::Three => "three",
        }
    }
}

/// Converting back and forth: every index the conversion accepts, other
/// than that of `One`, comes back from the value it gives, and every value
/// other than `One` comes back from its index.
pub proof fn law_my_enum_roundtrip(i: int, e: MyEnum)
    ensures
        my_enum_of_index(i) matches Some(v) ==> my_enum_index(v) == i,
        my_enum_of_index(my_enum_index(e) as int) == Some(e),
{
}

} // verus!
