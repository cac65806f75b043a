use nzxt_ctl::paths::join;
use nzxt_ctl::text::decimal_string;

#[test]
fn paths_join_like_path_join() {
    assert_eq!(join("/a/b", "c"), "/a/b/c");
    assert_eq!(join("/a/b/", "c"), "/a/b/c");
    assert_eq!(join("", "c"), "c");
    assert_eq!(join("/a", "/etc"), "/etc");
}

#[test]
fn decimals() {
    assert_eq!(decimal_string(0), "0");
    assert_eq!(decimal_string(1601), "1601");
    assert_eq!(decimal_string(u64::MAX), "18446744073709551615");
}
