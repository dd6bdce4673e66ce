use minigrep::search;
use minigrep::search_case_insensitive;

#[test]
fn one_result() {
    let query = "duct";
    let contents = "Rust:\nsafe, fast, productive.\nPick three.\nDuct tape.";

    assert_eq!(vec!["safe, fast, productive."], search(query, contents));
}

#[test]
fn case_insensitive() {
    let query = "rUsT";
    let contents = "Rust:\nsafe, fast, productive.\nPick three.\nTrust me.";
    assert_eq!(
        vec!["Rust:", "Trust me."],
        search_case_insensitive(query, contents)
    );
}

#[test]
fn empty_query_matches_every_line() {
    let contents = "alpha\nbeta\ngamma";
    assert_eq!(vec!["alpha", "beta", "gamma"], search("", contents));
    assert_eq!(
        vec!["alpha", "beta", "gamma"],
        search_case_insensitive("", contents)
    );
}

#[test]
fn absent_query_yields_empty_result() {
    let contents = "alpha\nbeta\ngamma";
    assert_eq!(Vec::<&str>::new(), search("delta", contents));
    assert_eq!(Vec::<&str>::new(), search_case_insensitive("delta", contents));
}

#[test]
fn search_is_idempotent() {
    let query = "a";
    let contents = "a line\nanother\nnothing here at all";
    assert_eq!(search(query, contents), search(query, contents));
    assert_eq!(
        search_case_insensitive(query, contents),
        search_case_insensitive(query, contents)
    );
}

#[test]
fn case_insensitive_finds_at_least_as_much() {
    let query = "Rust";
    let contents = "Rust:\nrust is great\nRUST\nno match";
    let sensitive = search(query, contents);
    let insensitive = search_case_insensitive(query, contents);
    assert_eq!(vec!["Rust:"], sensitive);
    assert_eq!(vec!["Rust:", "rust is great", "RUST"], insensitive);
    assert!(sensitive.len() <= insensitive.len());
}

#[test]
fn trailing_newline_adds_no_line() {
    assert_eq!(vec!["one", "two"], search("", "one\ntwo\n"));
}

#[test]
fn carriage_return_before_newline_is_dropped() {
    assert_eq!(vec!["one", "two"], search("", "one\r\ntwo"));
    assert_eq!(Vec::<&str>::new(), search("\r", "one\r\ntwo"));
}

#[test]
fn lone_trailing_carriage_return_is_kept() {
    assert_eq!(vec!["one\r"], search("\r", "one\r"));
}

#[test]
fn empty_text_has_no_lines() {
    assert_eq!(Vec::<&str>::new(), search("", ""));
    assert_eq!(Vec::<&str>::new(), search_case_insensitive("x", ""));
}

#[test]
fn consecutive_newlines_keep_empty_lines() {
    assert_eq!(vec!["a", "", "b"], search("", "a\n\nb"));
}

#[test]
fn matches_are_case_sensitive_by_default() {
    let contents = "Duct tape.\nproductive.";
    assert_eq!(vec!["productive."], search("duct", contents));
}

#[test]
fn line_with_repeated_matches_appears_once() {
    let contents = "abab\ncd";
    assert_eq!(vec!["abab"], search("ab", contents));
}

#[test]
fn non_ascii_characters_match_literally() {
    let contents = "caf\u{e9} au lait\nplain coffee";
    assert_eq!(vec!["caf\u{e9} au lait"], search("caf\u{e9}", contents));
}

#[test]
fn folding_only_affects_ascii_letters() {
    let contents = "STRA\u{df}E\nnumbers 123";
    assert_eq!(
        vec!["STRA\u{df}E"],
        search_case_insensitive("stra\u{df}e", contents)
    );
    assert_eq!(vec!["numbers 123"], search_case_insensitive("123", contents));
}

#[test]
fn results_keep_original_casing() {
    let contents = "MiXeD CaSe LiNe";
    assert_eq!(vec!["MiXeD CaSe LiNe"], search_case_insensitive("mixed", contents));
}
