use tix::util::branch_name;
use tix::util::split_on_comma_and_whitespace;
use tix::util::split_on_commas_trimmed;
use tix::util::truncate_and_dash_case;

#[test]
fn zero_max_length_gives_empty_title_component() {
    assert_eq!(truncate_and_dash_case("Anything at all", 0), "");
    assert_eq!(truncate_and_dash_case("", 0), "");
    assert_eq!(branch_name(7, "Anything at all", 0), "7-");
}

#[test]
fn short_title_is_not_truncated_but_still_slugged() {
    assert_eq!(truncate_and_dash_case("Hello World", 50), "hello-world");
    assert_eq!(truncate_and_dash_case("Fix: login/bug!", 50), "fix-loginbug");
}

#[test]
fn punctuation_only_title_slugs_to_empty() {
    assert_eq!(truncate_and_dash_case("!!!???", 50), "");
    assert_eq!(truncate_and_dash_case("...---...", 50), "");
    assert_eq!(branch_name(42, "?!?!", 50), "42-");
}

#[test]
fn branch_naming_is_deterministic() {
    let a = branch_name(42, "Fix login bug", 50);
    let b = branch_name(42, "Fix login bug", 50);
    assert_eq!(a, b);
}

#[test]
fn scenario_simple_title() {
    assert_eq!(branch_name(42, "Fix login bug", 50), "42-fix-login-bug");
}

#[test]
fn scenario_truncation_backs_off_to_last_space() {
    // 80 characters: a space at position 45 and none after it within the
    // first 50, so truncation backs off to the first 45 characters.
    let title = format!("{} {}", "a".repeat(45), "b".repeat(34));
    assert_eq!(title.len(), 80);
    let expected = format!("9-{}", "a".repeat(45));
    assert_eq!(branch_name(9, &title, 50), expected);
}

#[test]
fn hard_truncation_without_any_space() {
    let title = "x".repeat(60);
    assert_eq!(truncate_and_dash_case(&title, 50), "x".repeat(50));
}

#[test]
fn truncation_backs_off_to_any_whitespace_not_just_spaces() {
    // The only whitespace in the first 50 characters is a tab: a mid-word
    // cut backs off to it.
    let title = format!("{}\t{}", "a".repeat(40), "c".repeat(39));
    assert_eq!(title.chars().count(), 80);
    assert_eq!(truncate_and_dash_case(&title, 50), "a".repeat(40));
}

#[test]
fn cut_at_a_word_boundary_keeps_the_whole_slice() {
    // The character right after the cut is a space: the truncation does
    // not land mid-word, so no back-off happens.
    assert_eq!(truncate_and_dash_case("hello world and more", 11), "hello-world");
    // The character right before the cut is a space: the same.
    assert_eq!(truncate_and_dash_case("hello there", 6), "hello");
}

#[test]
fn whitespace_runs_collapse_to_single_dashes() {
    assert_eq!(truncate_and_dash_case("  Fix   login \t bug  ", 50), "fix-login-bug");
}

#[test]
fn unicode_alphanumerics_are_kept_and_lowercased() {
    assert_eq!(truncate_and_dash_case("Grüße an Çelik", 50), "grüße-an-çelik");
    assert_eq!(truncate_and_dash_case("ÜBER Ärger", 50), "über-ärger");
}

#[test]
fn digits_are_kept() {
    assert_eq!(branch_name(3, "Bump to v2", 50), "3-bump-to-v2");
}

#[test]
fn large_issue_numbers_render_in_full() {
    assert_eq!(branch_name(18446744073709551615, "big", 50), "18446744073709551615-big");
    assert_eq!(branch_name(0, "zero", 50), "0-zero");
}

#[test]
fn github_labels_split_on_commas_and_whitespace() {
    assert_eq!(
        split_on_comma_and_whitespace("bug, ui  feature,,backend"),
        vec!["bug", "ui", "feature", "backend"]
    );
    assert_eq!(split_on_comma_and_whitespace(""), Vec::<String>::new());
    assert_eq!(split_on_comma_and_whitespace("  , ,"), Vec::<String>::new());
}

#[test]
fn gitlab_labels_split_on_commas_and_are_trimmed() {
    assert_eq!(split_on_commas_trimmed(" a , b ,, "), vec!["a", "b"]);
    assert_eq!(split_on_commas_trimmed("one"), vec!["one"]);
    assert_eq!(split_on_commas_trimmed(""), Vec::<String>::new());
    assert_eq!(split_on_commas_trimmed("ui team, needs triage"), vec!["ui team", "needs triage"]);
}
