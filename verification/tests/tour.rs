use rust_tour::null::{Abc, Age, CStyleEnum, MyInt, MyOption};
use rust_tour::owners::{self, SomeType};
use rust_tour::SomeData;

#[test]
fn adding_returns_the_sum() {
    assert_eq!(rust_tour::add(2, 3), 5);
    assert_eq!(rust_tour::add(-100, 100), 0);
    assert_eq!(rust_tour::simpler_add(2, 3), 5);
    assert_eq!(rust_tour::simpler_add(i32::MAX - 1, 1), i32::MAX);
}

#[test]
fn add_and_square_squares_the_successor() {
    assert_eq!(rust_tour::add_and_square(0), 1);
    assert_eq!(rust_tour::add_and_square(3), 16);
    assert_eq!(rust_tour::add_and_square(-3), 4);
}

#[test]
fn if_and_match_agree() {
    assert_eq!(rust_tour::what_if_else_can_do(true), 100);
    assert_eq!(rust_tour::what_if_else_can_do(false), -100);
    assert_eq!(rust_tour::match_can_do_better(true), 100);
    assert_eq!(rust_tour::match_can_do_better(false), -100);
    assert_eq!(
        rust_tour::what_if_else_can_do(true),
        rust_tour::match_can_do_better(true)
    );
    assert_eq!(
        rust_tour::what_if_else_can_do(false),
        rust_tour::match_can_do_better(false)
    );
}

#[test]
fn some_func_returns_its_pair() {
    let (left, right) = rust_tour::some_func();
    assert_eq!(left, 123);
    assert_eq!(right, 321);
}

#[test]
fn exclusive_ownership_overwrites_with_five() {
    let mut thing: SomeType = 42;
    owners::exclusive_ownership(&mut thing);
    assert_eq!(thing, 5);

    let mut other: SomeType = 5;
    owners::exclusive_ownership(&mut other);
    assert_eq!(other, 5);
}

#[test]
fn struct_values_can_be_built_and_taken_apart() {
    let some_data = SomeData {
        my_int: 123,
        is_mine: true,
    };
    let not_my_data = SomeData {
        is_mine: false,
        ..some_data
    };
    assert_eq!(not_my_data.my_int, 123);
    assert!(!not_my_data.is_mine);

    let SomeData { my_int, is_mine } = some_data;
    assert_eq!(my_int, 123);
    assert!(is_mine);
}

#[test]
fn enums_are_closed_sets_of_alternatives() {
    let letter = Abc::B;
    let name = match letter {
        Abc::A => "a",
        Abc::B => "b",
        Abc::C => "c",
    };
    assert_eq!(name, "b");

    let c_style = CStyleEnum::A;
    assert!(matches!(c_style, CStyleEnum::A));
}

#[test]
fn enum_variants_can_carry_data() {
    let age = Age::Custom(30);
    let years = match age {
        Age::Underage => 0,
        Age::Custom(n) => n,
    };
    assert_eq!(years, 30);
    assert!(matches!(Age::Underage, Age::Underage));

    let held = MyInt::Thing(7);
    let value = match held {
        MyInt::Null => None,
        MyInt::Thing(n) => Some(n),
    };
    assert_eq!(value, Some(7));
}

#[test]
fn my_option_is_generic_over_the_payload() {
    let an_int: MyOption<i32> = MyOption::MySome(9);
    let got = match an_int {
        MyOption::MyNone => 0,
        MyOption::MySome(n) => n,
    };
    assert_eq!(got, 9);

    let no_pair: MyOption<(char, i32)> = MyOption::MyNone;
    assert!(matches!(no_pair, MyOption::MyNone));
}

#[test]
fn demonstrations_run_to_completion() {
    rust_tour::empty_function();
    rust_tour::lets_talk_about_variables();
    rust_tour::lets_move_on_to_other_types();
    rust_tour::returns_nothing();
    rust_tour::blocks_are_expressions();
    rust_tour::methods_and_imports();
    rust_tour::creating_values();
    owners::function_owning_the(17);
    owners::difference_between_owned_and_borrowed_types();
    owners::lifetimes_are_type_parameters("any string");
    owners::lifetimes_can_live_longer_than_others();
}
