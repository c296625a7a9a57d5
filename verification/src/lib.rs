//! A guided tour of the language, function by function: variable bindings,
//! integer types, tuples, blocks, `if` and `match` as expressions, structs and
//! methods, enumerations as sum types, and ownership and borrowing. Each
//! function is a self-contained illustration; where one computes a value, its
//! contract states exactly what comes out.
#![allow(unused_variables)]

use vstd::prelude::*;

pub mod null;
pub mod owners;

verus! {

// A comment!

// A function!
pub fn empty_function() {
}

pub fn lets_talk_about_variables() {
    let x: i32; // declare "x"
    x = 123; // assign 123 to "x"

    // Can also be written in one line
    let x: i32 = 123; // `i32` is a signed 32-bit integer

    // Variables can be shadowed and integers can fit into multiple sizes
    let x: i64 = 123;

    // there's i8, i16, i32, i64, i128
    //    also u8, u16, u32, u64, u128 for unsigned

    // But integer literals are checked at compile-time to see if they are too big to fit in their type
    // let x: i8 = 256;
    // Produces this compiler output:
    // error: literal out of range for `i8`
    //    |
    //    |     let x: i8 = 256;
    //    |                 ^^^
    //    |
    //    = note: the literal `256` does not fit into the type `i8` whose range is `-128..=127`
    //    = help: consider using the type `i16` instead
    //    = note: `#[deny(overflowing_literals)]` on by default

    // Variable names are actually bindings, where underscore (`_`) means to throw away the value
    let _: i32 = 123;

    // Starting with an underscore is convention for unused values
    let _going_to_use_this_later_maybe: i32 = 321;
}

pub fn lets_move_on_to_other_types() {
    // Tuples are supported
    let pair: (char, i32) = ('a', 17);

    // Can be extracted like this
    let left = pair.0;
    let right = pair.1;
    assert(left == 'a' && right == 17);

    // Or just destructured directly
    let (left, right) = some_func();

    // And you can discard items easily
    let (_, i_want_this_one) = some_func();
}

// Function arguments and return values are written with colons and a returning
// arrow. The `requires` clause keeps the sum inside the range of `i32`, and
// the `ensures` clause says what the function returns.
pub fn add(first: i32, second: i32) -> (sum: i32)
    requires
        i32::MIN <= first + second <= i32::MAX,
    ensures
        sum == first + second,
{
    return first + second;
}

pub fn simpler_add(first: i32, second: i32) -> (sum: i32)
    requires
        i32::MIN <= first + second <= i32::MAX,
    ensures
        sum == first + second,
{
    first + second
    // Note the missing semicolon above.
    // A semicolon marks a statement, returning nothing,
    // while a missing semicolon means an expression, which is implicitly
    // returned. This is the idiomatic way to write it.
}

pub fn add_and_square(thing: i32) -> (square: i32)
    requires
        i32::MIN <= thing + 1 <= i32::MAX,
        i32::MIN <= (thing + 1) * (thing + 1) <= i32::MAX,
    ensures
        square == (thing + 1) * (thing + 1),
{
    let added = thing + 1;
    added * added
}

pub fn returns_nothing() {
    let x: i32 = 0;
    // Note the semicolon above, marking a statement that returns nothing.
    // There is also no return type on the function,
    // and no return statement or expression without a semicolon.
}

pub fn blocks_are_expressions() {
    // This
    let x: i32 = 123;

    // is equivalent to this:
    let x: i32 = { 123 };

    // And blocks can also have statements, like a function, returning the last expression
    // So this is equivalent to the above:
    let x: i32 = {
        let hundred: i32 = 100;
        let twenty: i32 = 20;
        let three: i32 = 3;
        hundred + twenty + three
    };
    assert(x == 123);
}

pub fn what_if_else_can_do(this_is_true: bool) -> (answer: i32)
    ensures
        answer == if this_is_true { 100int } else { -100int },
{
    if this_is_true {
        100
    } else {
        -100
    }
}

pub fn match_can_do_better(what_is_this: bool) -> (answer: i32)
    ensures
        answer == if what_is_this { 100int } else { -100int },
{
    // Match is like a switch-case from other languages
    match what_is_this {
        true => 100,
        false => -100,
    }
}

pub fn methods_and_imports() {
    // Methods are accessed by a dot
    let biggest = 100i32.max(-100); // This is 100
    assert(biggest == 100);

    // Since types are namespaces, the same method can be reached with the
    // double-colon, which works on namespaces: `i32` is the type and `max`
    // is the function
    let biggest = i32::max(100, -100); // This is the same function call and is 100
    assert(biggest == 100);

    // You can use `use` to import things into scope instead of writing the
    // whole path; such imports are written at the top of a file, next to
    // `use vstd::prelude::*;`, which brings in the verification vocabulary

    // Blocks are scopes of their own, so a calculation can be kept local
    let x: i32 = {
        i32::max(1223, 123232)
    };
    assert(x == 123232);

    let string = "hello";

    // These are equivalent
    let string_len = string.len();
    let string_len = str::len(string);
    // Types like `str` which are used often are in the prelude and don't need importing
}

// Let's talk about types baby
pub struct SomeData {
    pub my_int: i32,
    pub is_mine: bool,
}

pub fn creating_values() {
    // This is how we create a value of the type
    let some_data = SomeData {
        my_int: 123,
        is_mine: true,
    };
    // The order of the fields does not matter
    let some_data = SomeData {
        is_mine: true,
        my_int: 123,
    };

    // You can create a new struct from the fields of another
    let not_my_data = SomeData {
        is_mine: false,
        ..some_data
    };
    assert(not_my_data.my_int == 123 && !not_my_data.is_mine);

    let copy_of_some_data = SomeData { ..some_data };

    // Structs can also be deconstructed
    let SomeData { my_int, is_mine } = some_data;
    assert(my_int == 123 && is_mine);
}

// A function can hand back several values at once by returning a tuple
pub fn some_func() -> (pair: (i32, i32))
    ensures
        pair == (123i32, 321i32),
{
    (123, 321)
}

} // verus!
