use foreignc::template::derived_input::{decimal_string, record_file_name};
use foreignc::text::{compare_str, ends_with, replace, str_eq, StrOrder};
use foreignc::util::{camel_step, char_facts, snake_step, to_camel_case, to_snake_case, CharFacts};

#[test]
fn snake_case_of_type_names() {
    assert_eq!("boxed_struct", to_snake_case("BoxedStruct".to_owned()));
    assert_eq!("new_boxed_struct", to_snake_case("newBoxedStruct".to_owned()));
    assert_eq!("free_boxed_struct", to_snake_case("free_BoxedStruct".to_owned()));
}

#[test]
fn snake_case_keeps_runs_of_capitals_together() {
    assert_eq!("httpserver", to_snake_case("HTTPServer".to_owned()));
    assert_eq!("", to_snake_case(String::new()));
    assert_eq!("a1_b", to_snake_case("a1B".to_owned()));
    assert_eq!("a_b", to_snake_case("a_B".to_owned()));
}

#[test]
fn camel_case_of_names() {
    assert_eq!("Foreignc", to_camel_case("foreignc".to_owned()));
    assert_eq!("HelloWorld", to_camel_case("hello_world".to_owned()));
    assert_eq!("ABC", to_camel_case("a b_c".to_owned()));
    assert_eq!("", to_camel_case("__".to_owned()));
}

#[test]
fn replace_every_occurrence() {
    assert_eq!("self_is_self", replace("this_is_this", "this", "self"));
    assert_eq!("self", replace("this", "this", "self"));
    assert_eq!("other", replace("other", "this", "self"));
    assert_eq!("aa", replace("aaaa", "aa", "a"));
}

#[test]
fn string_helpers() {
    assert!(str_eq("abc", "abc"));
    assert!(!str_eq("abc", "abd"));
    assert_eq!("abcd", foreignc::text::concat("ab", "cd"));
    assert!(ends_with("MyString", "String"));
    assert!(ends_with("str", "str"));
    assert!(!ends_with("tr", "str"));
    assert!(!ends_with("Strings", "String"));
}

#[test]
fn compare_orders_by_characters() {
    assert!(matches!(compare_str("A", "B"), StrOrder::Less));
    assert!(matches!(compare_str("B", "B"), StrOrder::Equal));
    assert!(matches!(compare_str("Ba", "B"), StrOrder::Greater));
    assert!(matches!(compare_str("", "a"), StrOrder::Less));
}

#[test]
fn decimal_digits() {
    assert_eq!("0", decimal_string(0));
    assert_eq!("12345", decimal_string(12345));
    assert_eq!("18446744073709551615", decimal_string(u64::MAX));
}

#[test]
fn record_file_name_appends_hash() {
    assert_eq!("add42", record_file_name("add".to_owned(), 42));
    assert_eq!("BoxedStruct0", record_file_name("BoxedStruct".to_owned(), 0));
}

fn facts(upper: bool, lower: bool, alphabetic: bool, numeric: bool, whitespace: bool, lo: char, up: char) -> CharFacts {
    CharFacts { upper, lower, alphabetic, numeric, whitespace, lower_first: lo, upper_first: up }
}

#[test]
fn snake_step_writes_underscore_before_capital() {
    let mut out = String::from("a");
    let next = snake_step(facts(true, false, true, false, false, 'b', 'B'), true, &mut out);
    assert_eq!("a_b", out);
    assert!(next);
    let next = snake_step(facts(true, false, true, false, false, 'c', 'C'), false, &mut out);
    assert_eq!("a_bc", out);
    assert!(!next);
    let next = snake_step(facts(false, true, true, false, false, 'd', 'D'), false, &mut out);
    assert_eq!("a_bcd", out);
    assert!(next);
    let next = snake_step(facts(false, false, false, false, false, '-', '-'), true, &mut out);
    assert_eq!("a_bcd-", out);
    assert!(!next);
    let next = snake_step(facts(false, false, false, true, false, '7', '7'), true, &mut out);
    assert!(next);
}

#[test]
fn camel_step_drops_separators() {
    let mut out = String::new();
    assert!(camel_step('_', facts(false, false, false, false, false, '_', '_'), false, &mut out));
    assert_eq!("", out);
    assert!(camel_step(' ', facts(false, false, false, false, true, ' ', ' '), false, &mut out));
    assert!(!camel_step('x', facts(false, true, true, false, false, 'x', 'X'), true, &mut out));
    assert_eq!("X", out);
    assert!(!camel_step('y', facts(false, true, true, false, false, 'y', 'Y'), false, &mut out));
    assert_eq!("Xy", out);
}

#[test]
fn char_facts_of_letters() {
    let a = char_facts('a');
    assert!(a.lower && a.alphabetic && !a.upper && !a.numeric && !a.whitespace);
    assert_eq!('a', a.lower_first);
    assert_eq!('A', a.upper_first);
    let z = char_facts('Z');
    assert!(z.upper && !z.lower);
    assert_eq!('z', z.lower_first);
    let nine = char_facts('9');
    assert!(nine.numeric && !nine.alphabetic);
    assert!(char_facts(' ').whitespace);
}

#[test]
fn snake_and_camel_round_trips() {
    assert_eq!("hello_world", to_snake_case(to_camel_case("hello_world".to_owned())));
    assert_eq!("boxed_struct", to_snake_case(to_camel_case("boxed_struct".to_owned())));
    assert_eq!("HelloWorld", to_camel_case(to_snake_case("HelloWorld".to_owned())));
    assert_eq!("BoxedStruct", to_camel_case(to_snake_case("BoxedStruct".to_owned())));
}
