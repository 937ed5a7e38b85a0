use filenav::nav::apply;
use filenav::nav::bounded_dec;
use filenav::nav::bounded_inc;
use filenav::nav::Action;
use filenav::nav::NavError;
use filenav::nav::NavEvent;
use filenav::state::BrowserState;
use filenav::state::Entry;

fn entry(path: &str, is_directory: bool) -> Entry {
    Entry { path: path.to_string(), is_directory }
}

fn listing(names: &[&str]) -> Vec<Entry> {
    names.iter().map(|n| entry(n, false)).collect()
}

#[test]
fn bounded_dec_floors_at_zero() {
    assert_eq!(bounded_dec(0), 0);
    assert_eq!(bounded_dec(1), 0);
    assert_eq!(bounded_dec(7), 6);
}

#[test]
fn bounded_inc_saturates_at_upper() {
    assert_eq!(bounded_inc(0, 3), 1);
    assert_eq!(bounded_inc(2, 3), 3);
    assert_eq!(bounded_inc(3, 3), 3);
    assert_eq!(bounded_inc(5, 0), 5);
}

#[test]
fn move_up_never_goes_negative() {
    let mut st = BrowserState::new(listing(&["a", "b", "c"]));
    for _ in 0..10 {
        let r = apply(&mut st, NavEvent::MoveSelectionUp);
        assert_eq!(r, Ok(Action::Handled));
        assert_eq!(st.selected_index, 0);
    }
}

#[test]
fn move_down_saturates_at_last_index() {
    // The cursor is clamped to the last valid index, not to the length.
    let mut st = BrowserState::new(listing(&["a", "b", "c"]));
    for _ in 0..10 {
        let r = apply(&mut st, NavEvent::MoveSelectionDown);
        assert_eq!(r, Ok(Action::Handled));
        assert!(st.selected_index <= 2);
    }
    assert_eq!(st.selected_index, 2);
}

#[test]
fn move_clears_search_buffer() {
    let mut st = BrowserState::new(listing(&["apple", "banana"]));
    apply(&mut st, NavEvent::Key("a".to_string())).unwrap();
    assert_eq!(st.search_buffer, "a");
    apply(&mut st, NavEvent::MoveSelectionDown).unwrap();
    assert_eq!(st.search_buffer, "");
    apply(&mut st, NavEvent::Key("b".to_string())).unwrap();
    assert_eq!(st.search_buffer, "b");
    apply(&mut st, NavEvent::MoveSelectionUp).unwrap();
    assert_eq!(st.search_buffer, "");
}

#[test]
fn page_up_grows_offset_up_to_length() {
    // Page-up grows the offset and page-down shrinks it; the offset is
    // clamped to [0, len].
    let mut st = BrowserState::new(listing(&["a", "b"]));
    for expected in [1, 2, 2, 2] {
        let r = apply(&mut st, NavEvent::ScrollUp);
        assert_eq!(r, Ok(Action::Handled));
        assert_eq!(st.scroll_index, expected);
    }
    for expected in [1, 0, 0] {
        let r = apply(&mut st, NavEvent::ScrollDown);
        assert_eq!(r, Ok(Action::Handled));
        assert_eq!(st.scroll_index, expected);
    }
}

#[test]
fn cancel_is_idempotent() {
    let mut st = BrowserState::new(listing(&["apple", "banana"]));
    apply(&mut st, NavEvent::Key("a".to_string())).unwrap();
    assert_eq!(st.search_buffer, "a");
    let r1 = apply(&mut st, NavEvent::Cancel);
    assert_eq!(r1, Ok(Action::Handled));
    let once = st.clone();
    assert_eq!(once.search_buffer, "");
    let r2 = apply(&mut st, NavEvent::Cancel);
    assert_eq!(r2, Ok(Action::Handled));
    assert_eq!(st, once);
}

#[test]
fn prefix_search_is_case_insensitive_and_keeps_failed_buffer() {
    let mut st = BrowserState::new(listing(&["apple", "Banana", "cherry"]));
    assert_eq!(st.selected_index, 0);
    let r = apply(&mut st, NavEvent::Key("b".to_string()));
    assert_eq!(r, Ok(Action::Handled));
    assert_eq!(st.selected_index, 1);
    assert_eq!(st.search_buffer, "b");
    let r = apply(&mut st, NavEvent::Key("b".to_string()));
    assert_eq!(r, Ok(Action::Handled));
    assert_eq!(st.selected_index, 1);
    assert_eq!(st.search_buffer, "bb");
}

#[test]
fn typed_key_is_lowercased_before_matching() {
    let mut st = BrowserState::new(listing(&["apple", "Banana", "cherry"]));
    let r = apply(&mut st, NavEvent::Key("B".to_string()));
    assert_eq!(r, Ok(Action::Handled));
    assert_eq!(st.selected_index, 1);
    assert_eq!(st.search_buffer, "b");
}

#[test]
fn search_does_not_wrap() {
    let mut st = BrowserState::new(listing(&["apple", "banana"]));
    st.selected_index = 1;
    let r = apply(&mut st, NavEvent::Key("a".to_string()));
    assert_eq!(r, Ok(Action::Handled));
    assert_eq!(st.selected_index, 1);
    assert_eq!(st.search_buffer, "a");
}

#[test]
fn search_starts_at_the_cursor_inclusive() {
    let mut st = BrowserState::new(listing(&["apple", "avocado"]));
    st.selected_index = 1;
    let r = apply(&mut st, NavEvent::Key("a".to_string()));
    assert_eq!(r, Ok(Action::Handled));
    assert_eq!(st.selected_index, 1);
}

#[test]
fn multi_character_key_names_change_nothing() {
    let mut st = BrowserState::new(listing(&["apple", "banana"]));
    let before = st.clone();
    let r = apply(&mut st, NavEvent::Key("Left Shift".to_string()));
    assert_eq!(r, Ok(Action::Handled));
    assert_eq!(st, before);
}

#[test]
fn activate_on_directory_requests_the_change_and_descends() {
    let mut st = BrowserState::new(vec![entry("docs", true), entry("note.txt", false)]);
    apply(&mut st, NavEvent::Key("d".to_string())).unwrap();
    apply(&mut st, NavEvent::ScrollUp).unwrap();
    let r = apply(&mut st, NavEvent::Activate);
    assert_eq!(r, Ok(Action::ChangeDir("docs".to_string())));
    // The host changed the directory and enumerated the child listing.
    let child = listing(&["inner.txt", "more.txt"]);
    st.complete_directory_change(child.clone());
    assert_eq!(st.entries, child);
    assert_eq!(st.selected_index, 0);
    assert_eq!(st.scroll_index, 0);
    assert_eq!(st.search_buffer, "");
}

#[test]
fn activate_on_file_emits_open_intent_and_changes_nothing() {
    let mut st = BrowserState::new(vec![entry("docs", true), entry("note.txt", false)]);
    st.selected_index = 1;
    let before = st.clone();
    let r = apply(&mut st, NavEvent::Activate);
    assert_eq!(r, Ok(Action::OpenFile("note.txt".to_string())));
    assert_eq!(st, before);
}

#[test]
fn failed_directory_change_is_a_no_op() {
    // The controller only requests the change; when the host's
    // set-current-directory call fails, it never reports a listing back, and
    // the state is exactly what it was before the event.
    let mut st = BrowserState::new(vec![entry("docs", true)]);
    let before = st.clone();
    let r = apply(&mut st, NavEvent::Activate);
    assert_eq!(r, Ok(Action::ChangeDir("docs".to_string())));
    assert_eq!(st, before);
    let r = apply(&mut st, NavEvent::Ascend);
    assert_eq!(r, Ok(Action::ChangeDir("..".to_string())));
    assert_eq!(st, before);
}

#[test]
fn empty_listing_is_safe() {
    let mut st = BrowserState::new(Vec::new());
    let r = apply(&mut st, NavEvent::MoveSelectionUp);
    assert_eq!(r, Ok(Action::Handled));
    assert_eq!(st.selected_index, 0);
    let r = apply(&mut st, NavEvent::MoveSelectionDown);
    assert_eq!(r, Ok(Action::Handled));
    assert_eq!(st.selected_index, 0);
    let r = apply(&mut st, NavEvent::Activate);
    assert_eq!(r, Err(NavError::NoSelection));
    assert_eq!(st.selected_index, 0);
    assert_eq!(st.entries, Vec::new());
}

#[test]
fn quit_changes_nothing_and_signals_the_loop() {
    let mut st = BrowserState::new(listing(&["a"]));
    let before = st.clone();
    let r = apply(&mut st, NavEvent::Quit);
    assert_eq!(r, Ok(Action::Quit));
    assert_eq!(st, before);
}

#[test]
fn current_entry_names_the_selected_entry() {
    let st = BrowserState::new(Vec::new());
    assert_eq!(st.current_entry(), None);
    let mut st = BrowserState::new(listing(&["a", "b"]));
    assert_eq!(st.current_entry(), Some(&entry("a", false)));
    apply(&mut st, NavEvent::MoveSelectionDown).unwrap();
    assert_eq!(st.current_entry(), Some(&entry("b", false)));
}

#[test]
fn visible_entries_start_at_the_scroll_offset() {
    let mut st = BrowserState::new(listing(&["a", "b", "c"]));
    assert_eq!(st.visible_entries(), listing(&["a", "b", "c"]).as_slice());
    apply(&mut st, NavEvent::ScrollUp).unwrap();
    assert_eq!(st.visible_entries(), listing(&["b", "c"]).as_slice());
    apply(&mut st, NavEvent::ScrollUp).unwrap();
    apply(&mut st, NavEvent::ScrollUp).unwrap();
    assert_eq!(st.visible_entries(), listing(&[]).as_slice());
}

#[test]
fn new_state_is_well_formed() {
    let st = BrowserState::new(listing(&["a"]));
    assert!(st.is_well_formed());
    assert_eq!(st.selected_index, 0);
    assert_eq!(st.scroll_index, 0);
    assert_eq!(st.search_buffer, "");
    let bad = BrowserState {
        entries: listing(&["a"]),
        selected_index: 5,
        scroll_index: 0,
        search_buffer: String::new(),
    };
    assert!(!bad.is_well_formed());
}
