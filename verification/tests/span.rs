use datapack_verifier::span::{locate, quoted, str_eq};

#[test]
fn quoted_wraps_in_double_quotes() {
    assert_eq!(quoted("title"), "\"title\"");
    assert_eq!(quoted(""), "\"\"");
}

#[test]
fn locate_round_trips_through_the_source() {
    let source = r#"{"display":{"title":"Installed Datapacks"}}"#;
    let (start, end) = locate(source, "title");
    assert_eq!(&source[start..end], "\"title\"");
}

#[test]
fn locate_finds_the_first_occurrence() {
    let source = r#"aaa "tok" bbb "tok" ccc"#;
    let (start, end) = locate(source, "tok");
    assert_eq!(start, 4);
    assert_eq!(end, 9);
    assert_eq!(&source[start..end], "\"tok\"");
}

#[test]
fn locate_matches_only_the_quoted_form() {
    let source = r#"tok tok "tok""#;
    let (start, end) = locate(source, "tok");
    assert_eq!(start, 8);
    assert_eq!(end, 13);
}

#[test]
fn locate_at_the_very_start() {
    let source = r#""x" and more"#;
    let (start, end) = locate(source, "x");
    assert_eq!((start, end), (0, 3));
}

#[test]
fn str_eq_on_equal_and_unequal_strings() {
    assert!(str_eq("minecraft:tick", "minecraft:tick"));
    assert!(!str_eq("minecraft:tick", "minecraft:tock"));
    assert!(!str_eq("short", "shorter"));
    assert!(str_eq("", ""));
}
