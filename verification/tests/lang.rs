//! Tests of language-file interpretation and the word source.

use arstyper::lang::{Lang, LangError};

fn lines(v: &[&str]) -> Vec<String> {
    v.iter().map(|s| s.to_string()).collect()
}

#[test]
fn parses_flags_and_words() {
    let l = lines(&[
        "inorder",
        "something unknown",
        "-----BEGIN WORDLIST-----",
        "alpha",
        "beta",
    ]);
    let lang = Lang::from_lines(&l).expect("valid language");
    assert!(lang.inorder);
    assert!(!lang.punctuated);
    assert!(!lang.select_one);
    assert!(!lang.select_all);
    assert_eq!(lang.inorder_index, 0);
    assert_eq!(lang.words, vec!["alpha".to_string(), "beta".to_string()]);
}

#[test]
fn flags_after_delimiter_are_words() {
    let l = lines(&["-----BEGIN WORDLIST-----", "inorder", "punctuated"]);
    let lang = Lang::from_lines(&l).expect("valid language");
    assert!(!lang.inorder);
    assert!(!lang.punctuated);
    assert_eq!(
        lang.words,
        vec!["inorder".to_string(), "punctuated".to_string()]
    );
}

#[test]
fn missing_delimiter_gives_no_words() {
    let l = lines(&["punctuated", "select_one"]);
    let lang = Lang::from_lines(&l).expect("valid language");
    assert!(lang.punctuated);
    assert!(lang.select_one);
    assert!(lang.words.is_empty());
}

#[test]
fn second_delimiter_is_an_ordinary_word() {
    let l = lines(&[
        "-----BEGIN WORDLIST-----",
        "alpha",
        "-----BEGIN WORDLIST-----",
    ]);
    let lang = Lang::from_lines(&l).expect("valid language");
    assert_eq!(
        lang.words,
        vec![
            "alpha".to_string(),
            "-----BEGIN WORDLIST-----".to_string()
        ]
    );
}

#[test]
fn conflicting_selection_is_rejected() {
    let l = lines(&[
        "select_one",
        "select_all",
        "-----BEGIN WORDLIST-----",
        "alpha",
    ]);
    assert!(matches!(
        Lang::from_lines(&l),
        Err(LangError::ConflictingSelection)
    ));
}

#[test]
fn empty_file_is_an_empty_language() {
    let lang = Lang::from_lines(&vec![]).expect("valid language");
    assert!(!lang.inorder && !lang.punctuated && !lang.select_one && !lang.select_all);
    assert!(lang.words.is_empty());
}

#[test]
fn gen_words_draws_from_the_list() {
    let l = lines(&["-----BEGIN WORDLIST-----", "alpha", "beta"]);
    let lang = Lang::from_lines(&l).expect("valid language");
    let drawn = lang.gen_words(50);
    assert_eq!(drawn.len(), 50);
    for w in drawn.iter() {
        assert!(w == "alpha" || w == "beta");
    }
}

#[test]
fn gen_words_single_word_repeats_it() {
    let l = lines(&["-----BEGIN WORDLIST-----", "only"]);
    let lang = Lang::from_lines(&l).expect("valid language");
    let drawn = lang.gen_words(3);
    assert_eq!(
        drawn,
        vec!["only".to_string(), "only".to_string(), "only".to_string()]
    );
}
