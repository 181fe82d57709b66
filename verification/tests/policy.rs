use local_llm::policy::StopMarkers;
use local_llm::text::last_n_chars;

fn markers(texts: &[&str], window: usize) -> StopMarkers {
    StopMarkers::new(texts.iter().map(|t| t.to_string()).collect(), window)
}

#[test]
fn ordinary_fragment_continues() {
    let policy = markers(&["###"], 3);
    assert!(policy.should_continue("Hello", ""));
    assert!(policy.should_continue(" world", "llo"));
    assert!(policy.should_continue("#", "a##b"));
}

#[test]
fn empty_fragment_continues() {
    let policy = markers(&["###", "<|"], 3);
    assert!(policy.should_continue("", ""));
    assert!(policy.should_continue("", "abc"));
}

#[test]
fn marker_whole_in_fragment_halts() {
    let policy = markers(&["<|eot|>"], 8);
    assert!(!policy.should_continue("<|eot|>", "there"));
    assert!(!policy.should_continue("bye<|eot|>now", ""));
}

#[test]
fn marker_in_trailing_window_halts() {
    let policy = markers(&["###"], 3);
    assert!(!policy.should_continue("more", "###"));
    assert!(!policy.should_continue("", "###"));
}

#[test]
fn any_of_several_markers_halts() {
    let policy = markers(&["===", "<|"], 3);
    assert!(!policy.should_continue("a===b", ""));
    assert!(!policy.should_continue("<|start", ""));
    assert!(!policy.should_continue("x", "=<|"));
    assert!(policy.should_continue("= = =", "< |"));
}

#[test]
fn no_markers_never_halts() {
    let policy = markers(&[], 3);
    assert!(policy.should_continue("### <| ===", "###"));
}

#[test]
fn marker_split_across_two_fragments_halts_at_the_next() {
    let policy = markers(&["<|eot|>"], 8);
    let first = "<|e";
    let second = "ot|>";
    assert!(policy.should_continue(first, ""));
    let after_first = last_n_chars(first, policy.window());
    assert!(policy.should_continue(second, &after_first));
    let both = format!("{first}{second}");
    let after_both = last_n_chars(&both, policy.window());
    assert!(!policy.should_continue("anything", &after_both));
    assert!(!policy.should_continue("", &after_both));
}

#[test]
fn marker_that_has_left_the_window_is_not_seen() {
    let policy = markers(&["###"], 3);
    let text = "ab###cd";
    let tail = last_n_chars(text, policy.window());
    assert_eq!(tail, "#cd");
    assert!(policy.should_continue("x", &tail));
}

#[test]
fn new_keeps_markers_and_a_window_that_holds_them() {
    let policy = markers(&["a", "bc"], 5);
    assert_eq!(policy.markers(), &vec!["a".to_string(), "bc".to_string()]);
    assert_eq!(policy.window(), 5);
}

#[test]
fn new_widens_a_window_that_is_shorter_than_a_marker() {
    assert_eq!(markers(&["<|eot|>"], 3).window(), 7);
    assert_eq!(markers(&["===", "<|eot|>", "#"], 0).window(), 7);
    assert_eq!(markers(&["###"], 3).window(), 3);
    assert_eq!(markers(&["\u{e9}\u{e9}\u{e9}\u{e9}"], 1).window(), 4);
    assert_eq!(markers(&[], 0).window(), 0);
}

#[test]
fn split_marker_is_seen_whatever_window_was_asked_for() {
    for asked in [0, 1, 3, 7, 8, 64] {
        let policy = markers(&["<|eot|>"], asked);
        let tail = last_n_chars("Hello there<|eot|>", policy.window());
        assert!(!policy.should_continue(" late", &tail));
    }
}
