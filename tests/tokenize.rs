use batcave::tokenize::tokenize_command;

fn words(v: &[&str]) -> Vec<String> {
    v.iter().map(|s| s.to_string()).collect()
}

#[test]
fn quoted_words_stay_together() {
    assert_eq!(tokenize_command("echo \"a b\" c"), words(&["echo", "a b", "c"]));
}

#[test]
fn escaped_quote_is_kept() {
    assert_eq!(tokenize_command("a\\\"b"), words(&["a\"b"]));
}

#[test]
fn empty_line_has_no_words() {
    assert_eq!(tokenize_command(""), Vec::<String>::new());
}

#[test]
fn spaces_collapse() {
    assert_eq!(tokenize_command("  a   b "), words(&["a", "b"]));
}

#[test]
fn only_spaces_give_no_words() {
    assert_eq!(tokenize_command("     "), Vec::<String>::new());
}

#[test]
fn backslash_before_other_character_is_kept() {
    assert_eq!(tokenize_command("a\\nb"), words(&["a\\nb"]));
}

#[test]
fn unterminated_quote_ends_the_word() {
    assert_eq!(tokenize_command("say \"hello world"), words(&["say", "hello world"]));
}

#[test]
fn trailing_backslash_is_dropped() {
    assert_eq!(tokenize_command("abc\\"), words(&["abc"]));
}

#[test]
fn empty_quotes_give_no_word() {
    assert_eq!(tokenize_command("a \"\" b"), words(&["a", "b"]));
}

#[test]
fn quotes_inside_a_word_join_it() {
    assert_eq!(tokenize_command("x\"y z\"w"), words(&["xy zw"]));
}
