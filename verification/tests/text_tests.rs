use chat_relay::messages::{chat_line, fallback_name, join_notice, leave_notice, rename_notice};
use chat_relay::text::{concat2, str_eq, trim, u64_to_string};

#[test]
fn trim_removes_surrounding_whitespace() {
    assert_eq!(trim("  hello \n"), "hello");
    assert_eq!(trim("\t\r\n x y \t"), "x y");
}

#[test]
fn trim_of_whitespace_only_is_empty() {
    assert_eq!(trim(""), "");
    assert_eq!(trim("   \t\r\n"), "");
}

#[test]
fn trim_keeps_inner_whitespace() {
    assert_eq!(trim(" a  b "), "a  b");
}

#[test]
fn u64_to_string_renders_decimal() {
    assert_eq!(u64_to_string(0), "0");
    assert_eq!(u64_to_string(7), "7");
    assert_eq!(u64_to_string(42), "42");
    assert_eq!(u64_to_string(1000), "1000");
    assert_eq!(u64_to_string(u64::MAX), "18446744073709551615");
}

#[test]
fn fallback_name_is_person_number() {
    assert_eq!(fallback_name(1), "Person1");
    assert_eq!(fallback_name(2), "Person2");
    assert_eq!(fallback_name(37), "Person37");
}

#[test]
fn str_eq_compares_exactly() {
    assert!(str_eq("abc", "abc"));
    assert!(!str_eq("abc", "abd"));
    assert!(!str_eq("abc", "ab"));
    assert!(str_eq("", ""));
    assert!(str_eq("caf\u{e9}", "caf\u{e9}"));
}

#[test]
fn concat2_joins() {
    assert_eq!(concat2("foo", "bar"), "foobar");
}

#[test]
fn notices_have_exact_shapes() {
    assert_eq!(join_notice("Alice"), "[Server]: Alice joined the chat\n");
    assert_eq!(leave_notice("Alice"), "[Server]: Alice left the chat\n");
    assert_eq!(rename_notice("Old", "New"), "[Server]: Old is now New\n");
    assert_eq!(chat_line("Alice", "hi there"), "[Alice]: hi there\n");
}
