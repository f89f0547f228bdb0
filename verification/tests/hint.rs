use lan_discovery::hint::{diy_hints, hint, hint_for, CommandHint};

#[test]
fn new_hint_completes_up_to_the_prefix() {
    let hint = CommandHint::new("get key", "get ");
    assert_eq!(hint.display(), "get key");
    assert_eq!(hint.complete_up_to(), 4);
    assert_eq!(hint.completion(), Some("get "));
}

#[test]
fn prefix_is_counted_in_bytes() {
    let hint = CommandHint::new("héllo wörld", "héllo ");
    assert_eq!(hint.complete_up_to(), 7);
    assert_eq!(hint.completion(), Some("héllo "));
}

#[test]
fn suffix_strips_what_is_typed() {
    let hint = CommandHint::new("hget key field", "hget ");
    let rest = hint.suffix(2);
    assert_eq!(rest.display(), "et key field");
    assert_eq!(rest.complete_up_to(), 3);
    assert_eq!(rest.completion(), Some("et "));
}

#[test]
fn suffix_past_the_completion_completes_nothing() {
    let hint = CommandHint::new("set key value", "set ");
    let rest = hint.suffix(6);
    assert_eq!(rest.display(), "y value");
    assert_eq!(rest.complete_up_to(), 0);
    assert_eq!(rest.completion(), None);
}

#[test]
fn suffix_of_nothing_is_the_hint() {
    let hint = CommandHint::new("help", "help");
    let rest = hint.suffix(0);
    assert_eq!(rest.display(), "help");
    assert_eq!(rest.complete_up_to(), 4);
    let rest = hint.suffix(4);
    assert_eq!(rest.display(), "");
    assert_eq!(rest.complete_up_to(), 0);
}

#[test]
fn history_hint_completes_nothing() {
    let hint = CommandHint::shown_only("get other".to_string());
    assert_eq!(hint.display(), "get other");
    assert_eq!(hint.completion(), None);
}

#[test]
fn no_hint_for_an_empty_line_or_inside_the_line() {
    let command = CommandHint::new("help", "help");
    assert!(hint_for("", 0, Some(&command), Some("history".to_string())).is_none());
    assert!(hint_for("he", 1, Some(&command), Some("history".to_string())).is_none());
}

#[test]
fn command_hint_goes_before_history() {
    let command = CommandHint::new("help", "help");
    let hint = hint_for("he", 2, Some(&command), Some("hello".to_string())).expect("a hint");
    assert_eq!(hint.display(), "lp");
    assert_eq!(hint.complete_up_to(), 2);
}

#[test]
fn history_hint_where_no_command_fits() {
    let hint = hint_for("xy", 2, None, Some("z earlier".to_string())).expect("a hint");
    assert_eq!(hint.display(), "z earlier");
    assert_eq!(hint.complete_up_to(), 0);
    assert!(hint_for("xy", 2, None, None).is_none());
}

#[test]
fn command_cut_inside_a_character_does_not_fit() {
    let command = CommandHint::new("héllo", "hé");
    let shown = hint_for("hx", 2, Some(&command), Some("earlier".to_string()));
    assert_eq!(shown.map(|h| h.display().to_string()), Some("earlier".to_string()));
    assert!(hint_for("hx", 2, Some(&command), None).is_none());
}

#[test]
fn known_commands_are_hinted() {
    let trie = diy_hints();
    let shown = hint(&trie, "he", 2, None).expect("help is hinted");
    assert_eq!(shown.display(), "lp");
    assert_eq!(shown.complete_up_to(), 2);
    assert_eq!(shown.completion(), Some("lp"));
    let shown = hint(&trie, "get k", 5, None).expect("get is hinted");
    assert_eq!(shown.display(), "ey");
    assert_eq!(shown.complete_up_to(), 0);
    let shown = hint(&trie, "hset", 4, None).expect("hset is hinted");
    assert_eq!(shown.display(), " key field value");
    assert_eq!(shown.completion(), Some(" "));
    let shown = hint(&trie, "set key value", 13, None).expect("a whole command is its own hint");
    assert_eq!(shown.display(), "");
    assert_eq!(shown.completion(), None);
}

#[test]
fn history_is_hinted_where_no_command_is() {
    let trie = diy_hints();
    assert!(hint(&trie, "quit", 4, None).is_none());
    let shown = hint(&trie, "quit", 4, Some("quit now".to_string())).expect("history");
    assert_eq!(shown.display(), "quit now");
    assert_eq!(shown.complete_up_to(), 0);
    assert!(hint(&trie, "helpx", 5, None).is_none());
}

#[test]
fn nothing_is_hinted_inside_the_line() {
    let trie = diy_hints();
    assert!(hint(&trie, "", 0, Some("earlier".to_string())).is_none());
    assert!(hint(&trie, "he", 1, Some("earlier".to_string())).is_none());
}

#[test]
fn hint_comes_from_a_command_that_begins_with_the_line() {
    let trie = diy_hints();
    for line in ["h", "hg", "hs", "g", "s", "help", "get ", "set k"] {
        if let Some(shown) = hint(&trie, line, line.len(), None) {
            let whole = format!("{}{}", line, shown.display());
            assert!(
                ["help", "get key", "set key value", "hget key field", "hset key field value"]
                    .contains(&whole.as_str())
            );
        }
    }
}

#[test]
fn command_hint_keeps_what_is_left_to_complete() {
    let trie = diy_hints();
    let shown = hint(&trie, "hg", 2, Some("hg earlier".to_string())).expect("hget is hinted");
    assert_eq!(shown.display(), "et key field");
    assert_eq!(shown.complete_up_to(), 3);
    assert_eq!(shown.completion(), Some("et "));
    let shown = hint(&trie, "get ", 4, None).expect("get is hinted");
    assert_eq!(shown.display(), "key");
    assert_eq!(shown.complete_up_to(), 0);
}
