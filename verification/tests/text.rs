use file::text::{join_strings, starts_with_str, str_equals, strip_prefix_or_whole, trim_end_matches_char, trim_matches_char};

#[test]
fn trims_trailing_characters() {
    assert_eq!(trim_end_matches_char("https://cdn.example.com///", '/'), "https://cdn.example.com");
    assert_eq!(trim_end_matches_char("///", '/'), "");
    assert_eq!(trim_end_matches_char("/a/b", '/'), "/a/b");
}

#[test]
fn trims_both_ends() {
    assert_eq!(trim_matches_char("//public/age.txt/", '/'), "public/age.txt");
    assert_eq!(trim_matches_char("/", '/'), "");
    assert_eq!(trim_matches_char("a/b", '/'), "a/b");
    assert_eq!(trim_matches_char("", '/'), "");
}

#[test]
fn compares_and_strips() {
    assert!(str_equals("url", "url"));
    assert!(!str_equals("url", "urls"));
    assert!(starts_with_str("/upload/url", "/upload/"));
    assert!(!starts_with_str("/up", "/upload/"));
    assert_eq!(strip_prefix_or_whole("/upload/url", "/upload/"), "url");
    assert_eq!(strip_prefix_or_whole("/uploads/url", "/upload/"), "/uploads/url");
}

#[test]
fn joins_with_separator() {
    let parts = vec!["photo".to_string(), "png".to_string(), "pnz".to_string()];
    assert_eq!(join_strings(&parts, "."), "photo.png.pnz");
    assert_eq!(join_strings(&vec!["only".to_string()], "."), "only");
    assert_eq!(join_strings(&Vec::new(), "."), "");
    assert_eq!(join_strings(&vec!["a".to_string(), "".to_string()], "."), "a.");
}
