use mdbg_rs::helper::CliHelper;

fn helper() -> CliHelper {
    CliHelper::new(
        vec![
            "continue",
            "break",
            "register dump",
            "register read",
            "register write",
            "memory read",
            "memory write",
        ]
        .into_iter()
        .map(|c| c.to_owned())
        .collect(),
    )
}

#[test]
fn single_match_is_completed_to_its_end() {
    assert_eq!(helper().complete("c", 1), vec!["ontinue"]);
    assert_eq!(helper().complete("br", 2), vec!["eak"]);
    assert_eq!(helper().complete("register d", 10), vec!["ump"]);
}

#[test]
fn several_matches_are_completed_to_their_common_start() {
    assert_eq!(helper().complete("r", 1), vec!["egister "]);
    assert_eq!(helper().complete("m", 1), vec!["emory "]);
    assert_eq!(helper().complete("reg", 3), vec!["ister "]);
}

#[test]
fn matches_without_a_common_start_are_all_offered() {
    assert_eq!(helper().complete("register ", 9), vec!["dump", "read", "write"]);
    assert_eq!(helper().complete("memory ", 7), vec!["read", "write"]);
    assert_eq!(
        helper().complete("", 0),
        vec![
            "continue",
            "break",
            "register dump",
            "register read",
            "register write",
            "memory read",
            "memory write"
        ]
    );
}

#[test]
fn only_the_text_before_the_cursor_counts() {
    assert_eq!(helper().complete("cxyz", 1), vec!["ontinue"]);
    assert_eq!(helper().complete("break", 0).len(), 7);
}

#[test]
fn no_match_has_no_candidate() {
    assert!(helper().complete("x", 1).is_empty());
    assert!(helper().complete("continue now", 12).is_empty());
    assert!(helper().complete("c", 2).is_empty());
    assert!(CliHelper::new(Vec::new()).complete("", 0).is_empty());
}

#[test]
fn complete_command_offers_an_empty_completion() {
    assert_eq!(helper().complete("continue", 8), vec![""]);
}

#[test]
fn common_start_is_made_of_whole_characters() {
    let helper = CliHelper::new(vec!["xfée".to_string(), "xfête".to_string()]);
    assert_eq!(helper.complete("x", 1), vec!["f"]);
    let helper = CliHelper::new(vec!["é1".to_string(), "é2".to_string()]);
    assert_eq!(helper.complete("é", 1), vec!["1", "2"]);
}
