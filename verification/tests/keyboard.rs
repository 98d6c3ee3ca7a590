use learn_ui::keyboard::{next_list_index, Key};

#[test]
fn next_list_index_handles_empty_list() {
    assert_eq!(next_list_index(None, 0, &Key::ArrowDown), None);
}

#[test]
fn next_list_index_moves_down_from_none() {
    assert_eq!(next_list_index(None, 3, &Key::ArrowDown), Some(0));
}

#[test]
fn next_list_index_moves_up_from_none() {
    assert_eq!(next_list_index(None, 3, &Key::ArrowUp), Some(2));
}

#[test]
fn next_list_index_moves_between_items() {
    assert_eq!(next_list_index(Some(1), 3, &Key::ArrowDown), Some(2));
    assert_eq!(next_list_index(Some(1), 3, &Key::ArrowUp), Some(0));
}

#[test]
fn next_list_index_caps_at_edges() {
    assert_eq!(next_list_index(Some(2), 3, &Key::ArrowDown), Some(2));
    assert_eq!(next_list_index(Some(0), 3, &Key::ArrowUp), Some(0));
}

#[test]
fn next_list_index_uses_enter_selection() {
    assert_eq!(next_list_index(Some(2), 3, &Key::Enter), Some(2));
    assert_eq!(next_list_index(None, 3, &Key::Enter), Some(0));
}

#[test]
fn next_list_index_ignores_other_keys() {
    assert_eq!(next_list_index(Some(1), 3, &Key::Other), None);
    assert_eq!(next_list_index(None, 0, &Key::Enter), None);
}

#[test]
fn next_list_index_single_item() {
    assert_eq!(next_list_index(Some(0), 1, &Key::ArrowDown), Some(0));
    assert_eq!(next_list_index(Some(0), 1, &Key::ArrowUp), Some(0));
}

#[test]
fn next_list_index_up_and_enter_accept_the_largest_index() {
    assert_eq!(next_list_index(Some(usize::MAX), 3, &Key::ArrowUp), Some(usize::MAX - 1));
    assert_eq!(next_list_index(Some(usize::MAX), 3, &Key::Enter), Some(usize::MAX));
    assert_eq!(next_list_index(Some(usize::MAX), 0, &Key::ArrowDown), None);
}
