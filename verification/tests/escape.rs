use sqlite_glance::escape::escape_identifier;

#[test]
fn plain_names_are_unchanged() {
    assert_eq!(escape_identifier("t1"), "t1");
    assert_eq!(escape_identifier("Some_Table_2"), "Some_Table_2");
    assert_eq!(escape_identifier(""), "");
}

#[test]
fn keywords_are_quoted() {
    assert_eq!(escape_identifier("select"), "\"select\"");
    assert_eq!(escape_identifier("SELECT"), "\"SELECT\"");
    assert_eq!(escape_identifier("Without"), "\"Without\"");
}

#[test]
fn quotes_and_newlines_are_quoted() {
    assert_eq!(escape_identifier("foo \n\"bar"), "\"foo \n\"\"bar\"");
    assert_eq!(escape_identifier("\""), "\"\"\"\"");
    assert_eq!(escape_identifier("a b"), "\"a b\"");
    assert_eq!(escape_identifier("caf\u{e9}"), "\"caf\u{e9}\"");
}
