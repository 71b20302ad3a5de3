use image_check::text::{leading_pair, split_on, trim_matches};

#[test]
fn split_on_keeps_empty_pieces() {
    assert_eq!(split_on("a/b/c", '/'), vec!["a", "b", "c"]);
    assert_eq!(split_on("", '/'), vec![""]);
    assert_eq!(split_on("/", '/'), vec!["", ""]);
    assert_eq!(split_on("a//b/", '/'), vec!["a", "", "b", ""]);
    assert_eq!(split_on("abc", '/'), vec!["abc"]);
}

#[test]
fn split_on_handles_wide_characters() {
    assert_eq!(split_on("é:ü:日本", ':'), vec!["é", "ü", "日本"]);
}

#[test]
fn leading_pair_takes_the_first_two_pieces() {
    assert_eq!(leading_pair("a:b", ':'), ("a".to_string(), Some("b".to_string())));
    assert_eq!(leading_pair("a:b:c", ':'), ("a".to_string(), Some("b".to_string())));
    assert_eq!(leading_pair("a", ':'), ("a".to_string(), None));
    assert_eq!(leading_pair("a:", ':'), ("a".to_string(), Some(String::new())));
    assert_eq!(leading_pair("", ':'), (String::new(), None));
}

#[test]
fn trim_matches_strips_both_ends() {
    assert_eq!(trim_matches("\"nginx\"", '"'), "nginx");
    assert_eq!(trim_matches("\"\"nginx\"", '"'), "nginx");
    assert_eq!(trim_matches("ng\"inx", '"'), "ng\"inx");
    assert_eq!(trim_matches("\"\"\"", '"'), "");
    assert_eq!(trim_matches("", '"'), "");
    assert_eq!(trim_matches("nginx", '"'), "nginx");
}
