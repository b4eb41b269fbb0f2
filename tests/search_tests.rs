use grep::{search, search_folded, search_insensitive, search_sensitive, Config};

#[test]
fn test_search_case_sensitive() {
    let query = "us";
    let contents = "\
        I'm nobody! Who are you?
        Are you nobody, too?
        Then there's a pair of us - don't tell!
        They'd banish us, you know.

        How dreary to be somebody!
        How public, like a frog
        To tell your name the livelong day
        To an admiring bog!";
    assert_eq!(
        vec![
            "        Then there's a pair of us - don't tell!",
            "        They'd banish us, you know.",
        ],
        search_sensitive(query, contents)
    )
}

#[test]
fn test_search_case_insensitive() {
    let query = "us";
    let contents = "US
        I'm nobody! Who are you?
        Are you nobody, too?
        Then there's a pair of us - don't tell!
        They'd banish us, you know.

        How dreary to be somebody!
        How public, like a frog
        To tell your name the livelong day
        To an admiring bog!";
    assert_eq!(
        vec![
            "US",
            "        Then there's a pair of us - don't tell!",
            "        They'd banish us, you know.",
        ],
        search_insensitive(query, contents)
    )
}

const POEM: &str = "I'm nobody! Who are you?\nAre you nobody, too?\nThen there's a pair of us - don't tell!\nThey'd banish us, you know.";

#[test]
fn sensitive_poem_scenario() {
    assert_eq!(
        search_sensitive("us", POEM),
        vec!["Then there's a pair of us - don't tell!", "They'd banish us, you know."]
    );
}

#[test]
fn insensitive_poem_with_upper_first_line() {
    let contents = format!("US\n{}", POEM);
    assert_eq!(
        search_insensitive("us", &contents),
        vec!["US", "Then there's a pair of us - don't tell!", "They'd banish us, you know."]
    );
}

#[test]
fn sensitive_keeps_only_exact_case() {
    let contents = "us\nUs\nUS";
    assert_eq!(search_sensitive("us", contents), vec!["us"]);
}

#[test]
fn insensitive_keeps_all_cases_verbatim() {
    let contents = "us\nUs\nUS";
    assert_eq!(search_insensitive("us", contents), vec!["us", "Us", "US"]);
    assert_eq!(search_insensitive("US", contents), vec!["us", "Us", "US"]);
}

#[test]
fn searches_repeat_identically() {
    let contents = "us\nUs\nUS\nnothing";
    assert_eq!(search_sensitive("us", contents), search_sensitive("us", contents));
    assert_eq!(search_insensitive("us", contents), search_insensitive("us", contents));
}

#[test]
fn empty_query_selects_every_line() {
    let contents = "one\n\nTwo\nthree";
    assert_eq!(search_sensitive("", contents), vec!["one", "", "Two", "three"]);
    assert_eq!(search_insensitive("", contents), vec!["one", "", "Two", "three"]);
}

#[test]
fn no_match_gives_empty_result() {
    assert!(search_sensitive("zebra", POEM).is_empty());
    assert!(search_insensitive("ZEBRA", POEM).is_empty());
}

#[test]
fn empty_contents_have_no_lines() {
    assert!(search_sensitive("", "").is_empty());
    assert!(search_insensitive("", "").is_empty());
}

#[test]
fn line_terminators_are_dropped() {
    assert_eq!(search_sensitive("", "a\r\nb\nc\n"), vec!["a", "b", "c"]);
    assert_eq!(search_sensitive("", "a\rb\n"), vec!["a\rb"]);
    assert_eq!(search_sensitive("", "x\n\ny\r"), vec!["x", "", "y\r"]);
}

#[test]
fn results_are_slices_of_contents() {
    let contents = String::from("alpha\nbeta\ngamma");
    let found = search_sensitive("a", &contents);
    let start = contents.as_ptr() as usize;
    let end = start + contents.len();
    for line in found {
        let p = line.as_ptr() as usize;
        assert!(p >= start && p + line.len() <= end);
    }
}

#[test]
fn folded_query_is_taken_as_given() {
    let contents = "US\nus";
    assert_eq!(search_folded("us", contents), vec!["US", "us"]);
    assert!(search_folded("US", contents).is_empty());
}

#[test]
fn dispatch_follows_config() {
    let contents = "Rust\nrust\ntrust me";
    let args: Vec<String> = vec!["prog".to_string(), "rust".to_string(), "f".to_string()];
    let sensitive = Config::new(&args, Some(String::new())).unwrap();
    let insensitive = Config::new(&args, None).unwrap();
    assert_eq!(search(&sensitive, contents), vec!["rust", "trust me"]);
    assert_eq!(search(&insensitive, contents), vec!["Rust", "rust", "trust me"]);
}
