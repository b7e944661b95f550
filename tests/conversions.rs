use term_basics_linux::{string_to_bool, string_to_value};

#[test]
fn lib_it_works() {
    assert_eq!(2 + 2, 4);
}

#[test]
fn string_to_int0() {
    let t: Option<u32> = string_to_value(&String::from("12981398"));
    assert_eq!(t, Option::Some(12981398));
}

#[test]
fn string_to_int1() {
    let t: Option<i32> = string_to_value(&String::from("-1234"));
    assert_eq!(t, Option::Some(-1234));
}

#[test]
fn string_to_int2() {
    let t: Option<u8> = string_to_value(&String::from("70000"));
    assert_eq!(t, Option::None);
}

#[test]
fn string_to_int3() {
    let t: Option<i32> = string_to_value(&String::from("23ohno23"));
    assert_eq!(t, Option::None);
}

#[test]
fn string_to_float0() {
    let t: Option<f32> = string_to_value(&String::from("34.5"));
    assert_eq!(t, Option::Some(34.5));
}

#[test]
fn string_to_float1() {
    let t: Option<f64> = string_to_value(&String::from("-0.00000000000001"));
    assert_eq!(t, Option::Some(-0.00000000000001));
}

#[test]
fn string_to_bool0() {
    assert!(string_to_bool(&String::from("yes")));
}

#[test]
fn string_to_bool1() {
    let t: Option<bool> = string_to_value(&String::from("true"));
    assert_eq!(t, Option::Some(true));
}

#[test]
fn string_to_bool2() {
    let t: Option<bool> = string_to_value(&String::from("false"));
    assert_eq!(t, Option::Some(false));
}

#[test]
fn yes_words_are_accepted() {
    for w in ["y", "ye", "yes", "ok", "+", "t", "tr", "tru", "true"] {
        assert!(string_to_bool(w), "{}", w);
    }
}

#[test]
fn other_words_are_refused() {
    for w in ["", "n", "no", "Yes", "yes ", "truee", "o", "k", "false", "yse"] {
        assert!(!string_to_bool(w), "{}", w);
    }
}

#[test]
fn parse_reads_the_value() {
    let t: Option<u16> = string_to_value("65535");
    assert_eq!(t, Some(65535));
    let u: Option<u16> = string_to_value("");
    assert_eq!(u, None);
}
