use riemann_egui_dash::workspace::{clamp_selection, remove_closed};

#[test]
fn a_selection_that_exists_stays() {
    assert_eq!(clamp_selection(0, 1), 0);
    assert_eq!(clamp_selection(2, 5), 2);
    assert_eq!(clamp_selection(4, 5), 4);
}

#[test]
fn a_selection_that_is_gone_moves_to_the_last_entry() {
    assert_eq!(clamp_selection(5, 5), 4);
    assert_eq!(clamp_selection(9, 2), 1);
    assert_eq!(clamp_selection(usize::MAX, 1), 0);
}

#[test]
fn without_entries_the_selection_is_the_first() {
    assert_eq!(clamp_selection(0, 0), 0);
    assert_eq!(clamp_selection(3, 0), 0);
}

#[test]
fn closed_windows_leave_and_the_others_keep_their_order() {
    let mut windows = vec!["a", "b", "c", "d", "e"];
    remove_closed(&mut windows, &vec![1, 3]);
    assert_eq!(windows, vec!["a", "c", "e"]);
    let mut windows = vec!["a", "b", "c", "d", "e"];
    remove_closed(&mut windows, &vec![0, 1, 4]);
    assert_eq!(windows, vec!["c", "d"]);
}

#[test]
fn nothing_closed_changes_nothing() {
    let mut windows = vec![1, 2, 3];
    remove_closed(&mut windows, &vec![]);
    assert_eq!(windows, vec![1, 2, 3]);
    let mut none: Vec<u8> = vec![];
    remove_closed(&mut none, &vec![]);
    assert!(none.is_empty());
}

#[test]
fn all_windows_can_be_closed_at_once() {
    let mut windows = vec![1, 2, 3];
    remove_closed(&mut windows, &vec![0, 1, 2]);
    assert!(windows.is_empty());
}
