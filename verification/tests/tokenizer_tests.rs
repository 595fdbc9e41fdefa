use command_prompt::tokenizer::split;

#[test]
fn splits_quoted_segments() {
    let r = split("echo \"a b\" c").unwrap();
    assert_eq!(r, vec!["echo".to_string(), "a b".to_string(), "c".to_string()]);
}

#[test]
fn unterminated_quote_is_an_error() {
    assert!(split("echo \"a").is_none());
}

#[test]
fn unterminated_single_quote_is_an_error() {
    assert!(split("echo 'a").is_none());
}

#[test]
fn empty_line_has_no_tokens() {
    let r = split("").unwrap();
    assert!(r.is_empty());
}

#[test]
fn whitespace_only_line_has_no_tokens() {
    let r = split("  \t  ").unwrap();
    assert!(r.is_empty());
}

#[test]
fn single_quotes_group_whitespace() {
    let r = split("say 'hello world'").unwrap();
    assert_eq!(r, vec!["say".to_string(), "hello world".to_string()]);
}

#[test]
fn adjacent_segments_join_into_one_token() {
    let r = split("a\"b c\"d").unwrap();
    assert_eq!(r, vec!["ab cd".to_string()]);
}

#[test]
fn empty_quotes_make_an_empty_token() {
    let r = split("x \"\" y").unwrap();
    assert_eq!(r, vec!["x".to_string(), "".to_string(), "y".to_string()]);
}

#[test]
fn quote_of_other_kind_is_literal() {
    let r = split("\"it's\" fine").unwrap();
    assert_eq!(r, vec!["it's".to_string(), "fine".to_string()]);
}

#[test]
fn multiple_spaces_separate_tokens() {
    let r = split("a   b").unwrap();
    assert_eq!(r, vec!["a".to_string(), "b".to_string()]);
}
