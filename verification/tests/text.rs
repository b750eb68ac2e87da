use meerkat::text::{push_bool, push_i32, push_joined, push_str_debug, push_u64};

#[test]
fn decimal_numbers() {
    let mut s = String::new();
    push_u64(&mut s, 0);
    s.push(' ');
    push_u64(&mut s, 1234567890123);
    s.push(' ');
    push_u64(&mut s, u64::MAX);
    assert_eq!(s, format!("0 1234567890123 {}", u64::MAX));
    let mut t = String::new();
    push_i32(&mut t, i32::MIN);
    t.push(' ');
    push_i32(&mut t, -7);
    t.push(' ');
    push_i32(&mut t, i32::MAX);
    assert_eq!(t, format!("{} -7 {}", i32::MIN, i32::MAX));
}

#[test]
fn booleans_and_joins() {
    let mut s = String::from(">");
    push_bool(&mut s, true);
    push_bool(&mut s, false);
    assert_eq!(s, ">truefalse");
    let mut j = String::new();
    push_joined(&mut j, &vec!["a".to_string(), "bc".to_string(), "".to_string()], ",");
    assert_eq!(j, "a,bc,");
    let mut e = String::from("x");
    push_joined(&mut e, &vec![], ", ");
    assert_eq!(e, "x");
}

#[test]
fn debug_strings_are_quoted_and_escaped() {
    let mut s = String::from("=");
    push_str_debug(&mut s, "a\"b\\c\n");
    assert_eq!(s, "=\"a\\\"b\\\\c\\n\"");
    let mut e = String::new();
    push_str_debug(&mut e, "");
    assert_eq!(e, "\"\"");
}

#[test]
fn plain_ascii_debug_form_is_quoted_text() {
    let mut s = String::from(">");
    push_str_debug(&mut s, "a b~{}()[]#1");
    assert_eq!(s, ">\"a b~{}()[]#1\"");
    let mut t = String::new();
    push_str_debug(&mut t, "");
    assert_eq!(t, "\"\"");
}
