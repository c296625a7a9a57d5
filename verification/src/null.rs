// The language does not have nulls, so how does it
// represent values that do not exist?

use vstd::prelude::*;

verus! {

// In addition to structs (product types),
// there are enumerations (sum types).
// A value of Abc can only be A, B or C.
pub enum Abc {
    A,
    B,
    C,
}

// Enum variants can also carry data, such as Custom here.
// So a value of type Age can be `Underage`
// or `Custom(0)`, `Custom(1)`, ... or `Custom(255)`
pub enum Age {
    Underage,
    Custom(u8),
}

pub enum CStyleEnum {
    A,
    B,
    C,
}

// So you could represent a missing value as such,
// but this requires a lot of duplication for all types
pub enum MyInt {
    Null,
    Thing(i32),
}

// Let's make it generic!
// (The variants carry a `My` prefix so that they do not shadow the
// built-in `Option` constructors that the prelude brings into scope.)
pub enum MyOption<T> {
    MyNone,
    MySome(T),
}

// This is actually built-in and is called Option<T>, so use that instead.

} // verus!
