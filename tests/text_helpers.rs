use decky::paths::{file_name, is_absolute, join, strip_dir};
use decky::text::{ascii_lowercase, contains, eq_ignore_case, push_decimal, replace, starts_with, to_hex};

#[test]
fn replace_every_occurrence() {
    assert_eq!(replace("a b  c", " ", "-"), "a-b--c");
    assert_eq!(replace("aaa", "aa", "b"), "ba");
    assert_eq!(replace("-i $HOME/.ssh/id_rsa", "$HOME", "/home/me"), "-i /home/me/.ssh/id_rsa");
    assert_eq!(replace("", "x", "y"), "");
}

#[test]
fn contains_and_prefix() {
    assert!(contains("-i key", "-i "));
    assert!(!contains("key -i", "-i "));
    assert!(contains("abc", ""));
    assert!(starts_with("defaults/x", "defaults"));
    assert!(!starts_with("def", "defaults"));
}

#[test]
fn lowercase_ascii_only() {
    assert_eq!(ascii_lowercase("My Plugin ÄB"), "my plugin Äb");
}

#[test]
fn hex_and_decimal() {
    assert_eq!(to_hex(&[0x00, 0x0f, 0xab, 0xff]), "000fabff");
    assert_eq!(to_hex(&[]), "");
    let mut s = String::from("uid=");
    push_decimal(&mut s, 1000);
    assert_eq!(s, "uid=1000");
    let mut z = String::new();
    push_decimal(&mut z, 0);
    assert_eq!(z, "0");
    let mut m = String::new();
    push_decimal(&mut m, u32::MAX);
    assert_eq!(m, "4294967295");
}

#[test]
fn case_insensitive_equality() {
    assert!(eq_ignore_case("ABCdef", "abcDEF"));
    assert!(!eq_ignore_case("abc", "abd"));
}

#[test]
fn path_joining() {
    assert_eq!(join("/tmp/decky", "abc"), "/tmp/decky/abc");
    assert_eq!(join("/tmp/decky/", "abc"), "/tmp/decky/abc");
    assert_eq!(join("Example", ""), "Example/");
    assert_eq!(join("", "x"), "x");
    assert_eq!(join("/a", "/b"), "/b");
}

#[test]
fn path_stripping() {
    assert_eq!(strip_dir("/s/dist/index.js", "/s"), Some("dist/index.js".to_string()));
    assert_eq!(strip_dir("/s", "/s"), Some(String::new()));
    assert_eq!(strip_dir("/sx/a", "/s"), None);
    assert_eq!(strip_dir("/tmp", "/"), Some("tmp".to_string()));
    assert_eq!(strip_dir("defaults/config.json", "defaults"), Some("config.json".to_string()));
}

#[test]
fn path_file_names() {
    assert_eq!(file_name("/home/me/my-plugin"), Some("my-plugin".to_string()));
    assert_eq!(file_name("/"), None);
    assert_eq!(file_name("/a/.."), None);
    assert_eq!(file_name("plain"), Some("plain".to_string()));
    assert!(is_absolute("/tmp"));
    assert!(!is_absolute("tmp"));
}
