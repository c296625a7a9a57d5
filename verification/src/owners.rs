use vstd::prelude::*;

verus! {

// A type alias can be written as such
pub type SomeType = i32;
// The type above doesn't matter for now,
// we just use it to focus on the ownership

pub fn function_owning_the(libs: SomeType) {
    // This function now owns the incoming parameter
    // and can do anything they want with it,
    // including not using it
}

pub fn exclusive_ownership(thing: &mut SomeType)
    ensures
        *final(thing) == 5,
{
    // This function has an exclusive reference,
    // often called a mutable reference,
    // because this function can mutate the value.

    // Mutating an exclusive reference is done by
    // assigning a value to the thing it references (points to).
    // * dereferences the reference
    *thing = 5;

    // our `thing` now references a value that is 5.

    // No one can read or modify the value thing points
    // to while this function runs.
    // This is checked at compile time.
    // The `ensures` clause above relates the value after the call,
    // written `final(thing)`, to what the body assigned.
}

pub fn difference_between_owned_and_borrowed_types() {
    let owned_string: String = "hello".to_string();

    let borrowed_string: &str = "there";
    let borrowed_from_static: &'static str = borrowed_string;
    // String literals live for as long as the program does
    // as they are embedded in the binary. The two above have the
    // same lifetime, but the last example has an explicit lifetime.
}

pub fn lifetimes_are_type_parameters<'this_is_a_lifetime_type_name_and_every_identifier_can_be_used>(
    some_string: &'this_is_a_lifetime_type_name_and_every_identifier_can_be_used str,
) {
    // Any name can be used for lifetimes, but most of
    // the times you don't have to write them explicitly
    // Because of this, a lot of people just write 'a, 'b, and so on

    // 'static is a special lifetime that lives the longest of them all.
    // It is currently the only special lifetime
}

pub fn lifetimes_can_live_longer_than_others<'b, 'a: 'b>() {
    // The above means that we have two generic lifetimes
    // where 'a outlives 'b.
    // This is rarely required.
}

} // verus!
