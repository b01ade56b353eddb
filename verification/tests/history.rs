use swift_run::data::history::{
    cycle_history, line_is_blank, load_history, position_of, save_history, InputBridge,
    WriteOrigin, HISTORY_CAP,
};
use swift_run::text::char_is_white_space;

fn list(items: &[&str]) -> Vec<String> {
    items.iter().map(|s| s.to_string()).collect()
}

#[test]
fn saving_a_known_command_moves_it_to_the_front() {
    let mut history = Vec::new();
    save_history(&mut history, "a");
    save_history(&mut history, "b");
    save_history(&mut history, "a");
    assert_eq!(history, list(&["a", "b"]));
}

#[test]
fn saving_puts_the_newest_first() {
    let mut history = Vec::new();
    save_history(&mut history, "a");
    save_history(&mut history, "b");
    save_history(&mut history, "c");
    assert_eq!(history, list(&["c", "b", "a"]));
    save_history(&mut history, "c");
    assert_eq!(history, list(&["c", "b", "a"]));
}

#[test]
fn saving_removes_only_the_first_of_several_equal_entries() {
    let mut history = list(&["x", "a", "y", "a"]);
    save_history(&mut history, "a");
    assert_eq!(history, list(&["a", "x", "y", "a"]));
}

#[test]
fn the_history_keeps_fifty_entries_and_drops_the_oldest() {
    let mut history = Vec::new();
    for i in 0..60 {
        save_history(&mut history, &format!("cmd{}", i));
    }
    assert_eq!(HISTORY_CAP, 50);
    assert_eq!(history.len(), 50);
    assert_eq!(history[0], "cmd59");
    assert_eq!(history[49], "cmd10");
}

#[test]
fn a_full_history_takes_a_known_command_without_dropping_any() {
    let mut history: Vec<String> = (0..50).map(|i| format!("cmd{}", i)).collect();
    save_history(&mut history, "cmd49");
    assert_eq!(history.len(), 50);
    assert_eq!(history[0], "cmd49");
    assert_eq!(history[1], "cmd0");
    assert_eq!(history[49], "cmd48");
}

#[test]
fn loading_drops_blank_lines_and_keeps_the_order() {
    let lines = list(&["notepad", "", "   ", "calc", "\t", " cmd ", "\u{3000}\u{a0}"]);
    assert_eq!(load_history(lines), list(&["notepad", "calc", " cmd "]));
    assert_eq!(load_history(Vec::new()), Vec::<String>::new());
}

#[test]
fn blank_lines_are_those_of_white_space_only() {
    assert!(line_is_blank(""));
    assert!(line_is_blank(" \t\r\n\u{0b}\u{0c}\u{85}\u{a0}\u{1680}\u{2000}\u{200a}\u{2028}\u{2029}\u{202f}\u{205f}\u{3000}"));
    assert!(!line_is_blank(" a "));
    assert!(!line_is_blank("\u{200b}"));
    for c in ['\0', ' ', 'a', '\u{1c}', '\u{85}', '\u{180e}', '\u{2007}', '\u{200b}', '\u{feff}'] {
        assert_eq!(char_is_white_space(c), c.is_whitespace(), "{:?}", c);
    }
}

#[test]
fn white_space_agrees_with_the_standard_library_everywhere() {
    for v in 0..=0x10FFFFu32 {
        if let Some(c) = char::from_u32(v) {
            assert_eq!(char_is_white_space(c), c.is_whitespace(), "U+{:04X}", v);
        }
    }
}

#[test]
fn position_of_finds_the_first_equal_entry() {
    let history = list(&["a", "b", "a"]);
    assert_eq!(position_of(&history, &"a".to_string()), Some(0));
    assert_eq!(position_of(&history, &"b".to_string()), Some(1));
    assert_eq!(position_of(&history, &"c".to_string()), None);
}

#[test]
fn cycling_an_empty_history_does_nothing() {
    let mut bridge = InputBridge::new(Vec::new());
    let before = bridge.clone();
    assert!(!cycle_history(&mut bridge, -1));
    assert_eq!(bridge, before);
    assert!(!cycle_history(&mut bridge, 1));
    assert_eq!(bridge, before);
    assert_eq!(bridge.history_index, None);
    assert_eq!(bridge.origin, WriteOrigin::UserEdit);
}

#[test]
fn cycling_forward_stops_at_the_last_entry() {
    let mut bridge = InputBridge::new(list(&["c", "b", "a"]));
    let mut seen = Vec::new();
    for _ in 0..6 {
        assert!(cycle_history(&mut bridge, 1));
        seen.push((bridge.history_index, bridge.input.clone()));
        bridge.finish_write();
    }
    assert_eq!(seen[0], (Some(0), "c".to_string()));
    assert_eq!(seen[1], (Some(1), "b".to_string()));
    assert_eq!(seen[2], (Some(2), "a".to_string()));
    assert_eq!(seen[5], (Some(2), "a".to_string()));
}

#[test]
fn cycling_back_stops_at_the_text_under_edit() {
    let mut bridge = InputBridge::new(list(&["c", "b", "a"]));
    bridge.history_index = Some(2);
    let mut seen = Vec::new();
    for _ in 0..6 {
        assert!(cycle_history(&mut bridge, -1));
        seen.push((bridge.history_index, bridge.input.clone()));
    }
    assert_eq!(seen[0], (Some(1), "b".to_string()));
    assert_eq!(seen[1], (Some(0), "c".to_string()));
    assert_eq!(seen[2], (None, String::new()));
    assert_eq!(seen[5], (None, String::new()));
}

#[test]
fn cycling_by_large_steps_stays_within_the_list() {
    let mut bridge = InputBridge::new(list(&["c", "b", "a"]));
    assert!(cycle_history(&mut bridge, isize::MAX));
    assert_eq!(bridge.history_index, Some(2));
    assert!(cycle_history(&mut bridge, isize::MIN));
    assert_eq!(bridge.history_index, None);
    bridge.history_index = Some(usize::MAX);
    assert!(cycle_history(&mut bridge, 1));
    assert_eq!(bridge.history_index, Some(2));
    assert_eq!(bridge.input, "a");
}

#[test]
fn cycling_goes_through_the_filtered_list_while_there_is_one() {
    let mut bridge = InputBridge::new(list(&["notepad", "calc", "cmd"]));
    bridge.filtered_history = Some(list(&["calc", "cmd"]));
    bridge.prediction = "calc".to_string();
    assert!(cycle_history(&mut bridge, 1));
    assert_eq!(bridge.input, "calc");
    assert_eq!(bridge.prediction, "");
    assert!(cycle_history(&mut bridge, 5));
    assert_eq!(bridge.history_index, Some(1));
    assert_eq!(bridge.input, "cmd");
}

#[test]
fn the_echo_of_a_cycling_write_keeps_the_index_and_a_user_edit_resets_it() {
    let mut bridge = InputBridge::new(list(&["c", "b", "a"]));
    assert!(cycle_history(&mut bridge, 1));
    assert_eq!(bridge.origin, WriteOrigin::ProgrammaticWrite);
    bridge.on_edit_changed("c".to_string());
    assert_eq!(bridge.history_index, Some(0));
    bridge.finish_write();
    assert_eq!(bridge.origin, WriteOrigin::UserEdit);
    assert!(cycle_history(&mut bridge, 1));
    bridge.on_edit_changed("b".to_string());
    bridge.finish_write();
    assert_eq!(bridge.history_index, Some(1));
    bridge.on_edit_changed("bx".to_string());
    assert_eq!(bridge.history_index, None);
    assert_eq!(bridge.input, "bx");
}

#[test]
fn accepting_a_prediction_makes_it_the_input() {
    let mut bridge = InputBridge::new(list(&["notepad"]));
    assert!(!bridge.accept_prediction());
    bridge.prediction = "notepad".to_string();
    bridge.filtered_history = Some(list(&["notepad"]));
    bridge.input = "no".to_string();
    assert!(bridge.accept_prediction());
    assert_eq!(bridge.input, "notepad");
    assert_eq!(bridge.prediction, "");
    assert_eq!(bridge.filtered_history, None);
    assert_eq!(bridge.origin, WriteOrigin::ProgrammaticWrite);
}

#[test]
fn committing_the_input_records_it_unless_it_is_empty() {
    let mut bridge = InputBridge::new(list(&["b", "a"]));
    assert!(!bridge.commit_input());
    assert_eq!(bridge.history, list(&["b", "a"]));
    bridge.input = "a".to_string();
    assert!(bridge.commit_input());
    assert_eq!(bridge.history, list(&["a", "b"]));
    assert_eq!(bridge.input, "a");
}

#[test]
fn recalling_entries() {
    let mut bridge = InputBridge::new(list(&["b", "a"]));
    assert!(bridge.recall_latest());
    assert_eq!(bridge.input, "b");
    assert!(bridge.recall(1));
    assert_eq!(bridge.input, "a");
    assert!(!bridge.recall(2));
    assert_eq!(bridge.input, "a");
    bridge.clear_history();
    assert!(bridge.history.is_empty());
    assert!(!bridge.recall_latest());
    assert_eq!(bridge.active_len(), 0);
}
