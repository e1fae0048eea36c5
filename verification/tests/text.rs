use intraconv::text::{
    append_repeated, count_in, same_text, starts_with, to_scope_path, trim_scope_suffix,
};

#[test]
fn count_in_counts_every_occurrence() {
    assert_eq!(count_in("", '/'), 0);
    assert_eq!(count_in("../../", '/'), 2);
    assert_eq!(count_in("../../../", '/'), 3);
    assert_eq!(count_in("abc", '/'), 0);
    assert_eq!(count_in("é/é/", 'é'), 2);
}

#[test]
fn starts_with_compares_the_first_characters() {
    assert!(starts_with("http://x", "http"));
    assert!(starts_with("https://x", "http"));
    assert!(starts_with("http", "http"));
    assert!(starts_with("anything", ""));
    assert!(!starts_with("htt", "http"));
    assert!(!starts_with("", "http"));
    assert!(!starts_with("xhttp", "http"));
    assert!(!starts_with("Http://", "http"));
}

#[test]
fn same_text_is_equality() {
    assert!(same_text("", ""));
    assert!(same_text("./", "./"));
    assert!(!same_text("./", "../"));
    assert!(!same_text("./", "."));
    assert!(!same_text(".", "./"));
    assert!(!same_text("std", "stD"));
}

#[test]
fn to_scope_path_replaces_each_slash() {
    assert_eq!(to_scope_path(""), "");
    assert_eq!(to_scope_path("a/b/"), "a::b::");
    assert_eq!(to_scope_path("/"), "::");
    assert_eq!(to_scope_path("a//b"), "a::::b");
    assert_eq!(to_scope_path("no slash"), "no slash");
    assert_eq!(to_scope_path("é/ü"), "é::ü");
}

#[test]
fn trim_scope_suffix_removes_whole_separators_only() {
    assert_eq!(trim_scope_suffix(""), "");
    assert_eq!(trim_scope_suffix("a::b::"), "a::b");
    assert_eq!(trim_scope_suffix("a::::"), "a");
    assert_eq!(trim_scope_suffix("a:::"), "a:");
    assert_eq!(trim_scope_suffix("a:"), "a:");
    assert_eq!(trim_scope_suffix("::"), "");
    assert_eq!(trim_scope_suffix(":::"), ":");
    assert_eq!(trim_scope_suffix("::a"), "::a");
    assert_eq!(trim_scope_suffix("é::"), "é");
}

#[test]
fn append_repeated_adds_n_copies() {
    let mut out = String::from(">");
    append_repeated(&mut out, "super::", 0);
    assert_eq!(out, ">");
    append_repeated(&mut out, "super::", 3);
    assert_eq!(out, ">super::super::super::");
}
