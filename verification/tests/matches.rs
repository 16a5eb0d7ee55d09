use regex::Regex;
use testing_library_dom::matches::{fuzzy_matches, Normalizer};
use testing_library_dom::types::matches::{Matcher, MatcherFunction, NormalizerFn};

struct Identity;

impl NormalizerFn for Identity {
    fn normalize(&self, text: &str) -> String {
        text.to_owned()
    }
}

struct IsAbc;

impl MatcherFunction for IsAbc {
    fn test(&self, text: &str, _node: Option<usize>) -> bool {
        text == "ABC"
    }
}

#[test]
fn matchers_accept_strings() {
    let identity: Box<dyn NormalizerFn> = Box::new(Identity);
    let normalizer = Normalizer::Custom(&identity);
    assert!(testing_library_dom::matches::matches(
        Some("ABC".to_owned()),
        None,
        &Matcher::String("ABC".to_owned()),
        &normalizer,
    ));
    assert!(fuzzy_matches(
        Some("ABC".to_owned()),
        None,
        &Matcher::String("ABC".to_owned()),
        &normalizer,
    ));
}

#[test]
fn matchers_accept_regex() {
    let identity: Box<dyn NormalizerFn> = Box::new(Identity);
    let normalizer = Normalizer::Custom(&identity);
    assert!(testing_library_dom::matches::matches(
        Some("ABC".to_owned()),
        None,
        &Matcher::Regex(Regex::new("ABC").expect("Regex should be valid.")),
        &normalizer,
    ));
    assert!(fuzzy_matches(
        Some("ABC".to_owned()),
        None,
        &Matcher::Regex(Regex::new("ABC").expect("Regex should be valid.")),
        &normalizer,
    ));
}

#[test]
fn matchers_accept_functions() {
    let identity: Box<dyn NormalizerFn> = Box::new(Identity);
    let normalizer = Normalizer::Custom(&identity);
    assert!(testing_library_dom::matches::matches(
        Some("ABC".to_owned()),
        None,
        &Matcher::Function(Box::new(IsAbc)),
        &normalizer,
    ));
    assert!(fuzzy_matches(
        Some("ABC".to_owned()),
        None,
        &Matcher::Function(Box::new(IsAbc)),
        &normalizer,
    ));
}

#[test]
fn matchers_return_false_if_text_to_match_is_not_a_string() {
    let identity: Box<dyn NormalizerFn> = Box::new(Identity);
    let normalizer = Normalizer::Custom(&identity);
    assert!(!testing_library_dom::matches::matches(
        None,
        None,
        &Matcher::String("ABC".to_owned()),
        &normalizer,
    ));
    assert!(!fuzzy_matches(
        None,
        None,
        &Matcher::String("ABC".to_owned()),
        &normalizer,
    ));
}

#[test]
fn string_matcher_is_exact_unless_fuzzy() {
    let identity: Box<dyn NormalizerFn> = Box::new(Identity);
    let normalizer = Normalizer::Custom(&identity);
    assert!(!testing_library_dom::matches::matches(
        Some("ABC".to_owned()),
        None,
        &Matcher::String("abc".to_owned()),
        &normalizer,
    ));
    assert!(fuzzy_matches(
        Some("ABC".to_owned()),
        None,
        &Matcher::String("abc".to_owned()),
        &normalizer,
    ));
}

#[test]
fn default_normalizer_trims_and_collapses() {
    let normalizer = Normalizer::Default {
        trim: true,
        collapse_whitespace: true,
    };
    assert_eq!("a b", normalizer.apply("  a   b  "));
    let keep = Normalizer::Default {
        trim: false,
        collapse_whitespace: false,
    };
    assert_eq!("  a   b  ", keep.apply("  a   b  "));
    let trim_only = Normalizer::Default {
        trim: true,
        collapse_whitespace: false,
    };
    assert_eq!("a   b", trim_only.apply("  a   b  "));
    let collapse_only = Normalizer::Default {
        trim: false,
        collapse_whitespace: true,
    };
    assert_eq!(" a b ", collapse_only.apply("\t a \n  b  "));
}

struct Reversed;

impl NormalizerFn for Reversed {
    fn normalize(&self, text: &str) -> String {
        text.chars().rev().collect()
    }
}

struct IsAt(&'static str, Option<usize>);

impl MatcherFunction for IsAt {
    fn test(&self, text: &str, node: Option<usize>) -> bool {
        text == self.0 && node == self.1
    }
}

#[test]
fn a_function_is_asked_about_the_normalized_text_and_the_node() {
    let reversed: Box<dyn NormalizerFn> = Box::new(Reversed);
    let normalizer = Normalizer::Custom(&reversed);
    // The function sees what the normalizer made of the text, and the node.
    assert!(testing_library_dom::matches::matches(
        Some("abc".to_owned()),
        Some(4),
        &Matcher::Function(Box::new(IsAt("cba", Some(4)))),
        &normalizer,
    ));
    assert!(!testing_library_dom::matches::matches(
        Some("abc".to_owned()),
        Some(4),
        &Matcher::Function(Box::new(IsAt("abc", Some(4)))),
        &normalizer,
    ));
    assert!(!testing_library_dom::matches::matches(
        Some("abc".to_owned()),
        Some(5),
        &Matcher::Function(Box::new(IsAt("cba", Some(4)))),
        &normalizer,
    ));
    assert!(!fuzzy_matches(
        Some("abc".to_owned()),
        None,
        &Matcher::Function(Box::new(IsAt("cba", Some(4)))),
        &normalizer,
    ));
    assert!(fuzzy_matches(
        Some("abc".to_owned()),
        None,
        &Matcher::Function(Box::new(IsAt("cba", None))),
        &normalizer,
    ));
    // Without a text the function is not asked.
    assert!(!testing_library_dom::matches::matches(
        None,
        Some(4),
        &Matcher::Function(Box::new(IsAt("", Some(4)))),
        &normalizer,
    ));
}
