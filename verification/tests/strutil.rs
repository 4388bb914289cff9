use wasmedgeup::strutil::{
    contains_str, ends_with_str, find_in_str, join_range, rfind_in_str, split_str, starts_with_str,
    str_eq, to_lower,
};

#[test]
fn lower_casing_is_ascii_only() {
    assert_eq!(to_lower("AArch64"), "aarch64");
    assert_eq!(to_lower("x86_64"), "x86_64");
    assert_eq!(to_lower("WINDOWS"), "windows");
    assert_eq!(to_lower(""), "");
}

#[test]
fn split_keeps_empty_segments() {
    assert_eq!(split_str("a-b--c", '-'), vec!["a", "b", "", "c"]);
    assert_eq!(split_str("plain", '-'), vec!["plain"]);
    assert_eq!(split_str("-x-", '-'), vec!["", "x", ""]);
}

#[test]
fn join_of_a_range() {
    let parts: Vec<String> =
        vec!["WasmEdge".into(), "plugin".into(), "wasi".into(), "nn".into(), "x".into()];
    assert_eq!(join_range(&parts, 2, 4, '-'), "wasi-nn");
    assert_eq!(join_range(&parts, 2, 2, '-'), "");
    assert_eq!(join_range(&parts, 0, 1, '-'), "WasmEdge");
}

#[test]
fn searching_and_affix_tests() {
    assert_eq!(find_in_str("a-b-c", '-'), Some(1));
    assert_eq!(find_in_str("abc", '-'), None);
    assert_eq!(rfind_in_str("a-b-c", '-'), Some(3));
    assert!(contains_str("WasmEdge-plugin-x-ubuntu20.04_x86_64.tar.gz", "ubuntu20.04_x86_64"));
    assert!(!contains_str("short", "longer than the text"));
    assert!(starts_with_str("WasmEdge-plugin-x", "WasmEdge-plugin-"));
    assert!(!starts_with_str("WasmEdge", "WasmEdge-plugin-"));
    assert!(ends_with_str("x.tar.gz", ".tar.gz"));
    assert!(!ends_with_str("x.tar", ".tar.gz"));
    assert!(str_eq("same", "same"));
    assert!(!str_eq("same", "Same"));
}
