use google_workspace_cli::dotenv::{assignment_for, parse_dotenv, strip_quotes};
use std::collections::HashMap;

fn pairs(v: &[(&str, &str)]) -> Vec<(String, String)> {
    v.iter().map(|(k, x)| (k.to_string(), x.to_string())).collect()
}

/// Loads `content` into a model environment, one pair at a time, as the loader does;
/// returns the assignments made, in order.
fn load_into(env: &mut HashMap<String, String>, content: &str) -> Vec<(String, String)> {
    let mut made = Vec::new();
    for entry in parse_dotenv(content) {
        let currently_set = env.contains_key(&entry.0);
        if let Some((k, v)) = assignment_for(entry, currently_set) {
            env.insert(k.clone(), v.clone());
            made.push((k, v));
        }
    }
    made
}

/// What setting the parsed variables does in an empty environment.
fn applied_in_empty_env(content: &str) -> Vec<(String, String)> {
    load_into(&mut HashMap::new(), content)
}

#[test]
fn parses_key_value() {
    let set = applied_in_empty_env("DOTENV_TEST_A=hello\nDOTENV_TEST_B=world");
    assert_eq!(set, pairs(&[("DOTENV_TEST_A", "hello"), ("DOTENV_TEST_B", "world")]));
}

#[test]
fn skips_comments_and_blank_lines() {
    let set = applied_in_empty_env("# this is a comment\n\n   \nDOTENV_TEST_C=yes");
    assert_eq!(set, pairs(&[("DOTENV_TEST_C", "yes")]));
}

#[test]
fn strips_double_quotes() {
    let set = applied_in_empty_env("DOTENV_TEST_DQ=\"quoted value\"");
    assert_eq!(set, pairs(&[("DOTENV_TEST_DQ", "quoted value")]));
}

#[test]
fn strips_single_quotes() {
    let set = applied_in_empty_env("DOTENV_TEST_SQ='single quoted'");
    assert_eq!(set, pairs(&[("DOTENV_TEST_SQ", "single quoted")]));
}

#[test]
fn does_not_overwrite_existing() {
    let mut env = HashMap::new();
    env.insert("DOTENV_TEST_EXIST".to_string(), "original".to_string());
    let made = load_into(&mut env, "DOTENV_TEST_EXIST=overwritten");
    assert!(made.is_empty());
    assert_eq!(env["DOTENV_TEST_EXIST"], "original");
}

#[test]
fn handles_empty_value() {
    let set = applied_in_empty_env("DOTENV_TEST_EMPTY=");
    assert_eq!(set, pairs(&[("DOTENV_TEST_EMPTY", "")]));
}

#[test]
fn handles_whitespace_around_equals() {
    let set = applied_in_empty_env("  DOTENV_TEST_WS  =  spaced  ");
    assert_eq!(set, pairs(&[("DOTENV_TEST_WS", "spaced")]));
}

#[test]
fn skips_lines_without_equals() {
    let set = applied_in_empty_env("no_equals_here\nDOTENV_TEST_NOEQ=ok");
    assert_eq!(set, pairs(&[("DOTENV_TEST_NOEQ", "ok")]));
}

#[test]
fn skips_empty_key() {
    assert!(parse_dotenv("=value_only").is_empty());
    assert!(applied_in_empty_env("=value_only").is_empty());
}

#[test]
fn strip_quotes_cases() {
    assert_eq!(strip_quotes("\"a b\""), "a b");
    assert_eq!(strip_quotes("'x'"), "x");
    assert_eq!(strip_quotes("\"\""), "");
    assert_eq!(strip_quotes("\""), "\"");
    assert_eq!(strip_quotes("'mixed\""), "'mixed\"");
    assert_eq!(strip_quotes("plain"), "plain");
    assert_eq!(strip_quotes("\"\"\""), "\"");
    assert_eq!(strip_quotes(""), "");
}

#[test]
fn first_line_for_a_key_wins() {
    let entries = parse_dotenv("K=first\nK=second\nL=1");
    assert_eq!(entries, pairs(&[("K", "first"), ("K", "second"), ("L", "1")]));
    assert_eq!(applied_in_empty_env("K=first\nK=second\nL=1"), pairs(&[("K", "first"), ("L", "1")]));
    let mut env = HashMap::new();
    env.insert("K".to_string(), "old".to_string());
    assert_eq!(load_into(&mut env, "K=first\nK=second\nL=1"), pairs(&[("L", "1")]));
    assert_eq!(env["K"], "old");
}

#[test]
fn assignment_only_for_unset_variable() {
    let e = ("A".to_string(), "1".to_string());
    assert_eq!(assignment_for(e.clone(), false), Some(e.clone()));
    assert_eq!(assignment_for(e, true), None);
}

#[test]
fn loading_twice_changes_nothing_more() {
    let text = "A=1\nB='two'\nA=3";
    let mut env = HashMap::new();
    load_into(&mut env, text);
    let once = env.clone();
    assert!(load_into(&mut env, text).is_empty());
    assert_eq!(env, once);
}

#[test]
fn loading_joined_texts_is_loading_each_in_turn() {
    let (a, b) = ("A=1\nB=2", "B=3\nC=4");
    let mut joined = HashMap::new();
    load_into(&mut joined, &format!("{}\n{}", a, b));
    let mut each = HashMap::new();
    load_into(&mut each, a);
    load_into(&mut each, b);
    assert_eq!(joined, each);
    assert_eq!(each["B"], "2");
}

#[test]
fn line_endings_and_unicode_whitespace() {
    let entries = parse_dotenv("A=1\r\nB = two words \r\n\u{3000}C\u{A0}=\u{2003}3\u{2003}\n");
    assert_eq!(entries, pairs(&[("A", "1"), ("B", "two words"), ("C", "3")]));
}

#[test]
fn value_keeps_later_equals_and_hash() {
    let entries = parse_dotenv("URL=http://x/?a=b#frag\n  # KEY=commented\nK=  'a' ");
    assert_eq!(entries, pairs(&[("URL", "http://x/?a=b#frag"), ("K", "a")]));
}

#[test]
fn line_roundtrip_of_written_pairs() {
    let written = pairs(&[("HOME_DIR", "/tmp/x"), ("EMPTY", ""), ("Q", "a'b\"c")]);
    let text: Vec<String> = written.iter().map(|(k, v)| format!("{}={}", k, v)).collect();
    assert_eq!(parse_dotenv(&text.join("\n")), written);
}

#[test]
fn quotes_only_after_trimming() {
    let entries = parse_dotenv("K=\" padded \"\nJ= \"x");
    assert_eq!(entries, pairs(&[("K", " padded "), ("J", "\"x")]));
}

#[test]
fn empty_and_blank_content() {
    assert!(parse_dotenv("").is_empty());
    assert!(parse_dotenv("\n\n \t \n").is_empty());
    assert!(parse_dotenv("#only=comment").is_empty());
}
