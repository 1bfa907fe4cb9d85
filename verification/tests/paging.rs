use podwatch::app::ui::state::{Paging, TableState};

fn at(index: Option<usize>) -> TableState {
    let mut state = TableState::new();
    state.select(index);
    state
}

#[test]
fn new_table_state_has_no_selection() {
    assert_eq!(TableState::new().selected(), None);
    assert_eq!(TableState::default().selected(), None);
}

#[test]
fn next_moves_and_wraps() {
    let mut state = at(Some(0));
    state.next(3, 1);
    assert_eq!(state.selected(), Some(1));
    state.next(3, 1);
    assert_eq!(state.selected(), Some(2));
    state.next(3, 1);
    assert_eq!(state.selected(), Some(0));
}

#[test]
fn prev_moves_and_wraps() {
    let mut state = at(Some(0));
    state.prev(3, 1);
    assert_eq!(state.selected(), Some(2));
    state.prev(3, 1);
    assert_eq!(state.selected(), Some(1));
    state.prev(3, 1);
    assert_eq!(state.selected(), Some(0));
}

#[test]
fn larger_steps_stop_at_the_ends() {
    let mut state = at(Some(2));
    state.next(10, 5);
    assert_eq!(state.selected(), Some(7));
    state.next(10, 5);
    assert_eq!(state.selected(), Some(9));
    state.next(10, 5);
    assert_eq!(state.selected(), Some(0));
    let mut state = at(Some(7));
    state.prev(10, 5);
    assert_eq!(state.selected(), Some(2));
    state.prev(10, 5);
    assert_eq!(state.selected(), Some(0));
    state.prev(10, 5);
    assert_eq!(state.selected(), Some(9));
}

#[test]
fn empty_list_has_no_selection() {
    let mut state = at(Some(3));
    state.next(0, 1);
    assert_eq!(state.selected(), None);
    let mut state = at(Some(3));
    state.prev(0, 1);
    assert_eq!(state.selected(), None);
}

#[test]
fn unset_selection_steps() {
    let mut state = at(None);
    state.next(5, 1);
    assert_eq!(state.selected(), Some(0));
    let mut state = at(None);
    state.next(3, 1);
    assert_eq!(state.selected(), Some(0));
    let mut state = at(None);
    state.next(2, 7);
    assert_eq!(state.selected(), Some(0));
    let mut state = at(None);
    state.prev(5, 1);
    assert_eq!(state.selected(), Some(0));
}

#[test]
fn selection_beyond_the_list_comes_back() {
    let mut state = at(Some(9));
    state.next(5, 1);
    assert_eq!(state.selected(), Some(4));
    let mut state = at(Some(9));
    state.prev(5, 1);
    assert_eq!(state.selected(), Some(4));
    let mut state = at(Some(9));
    state.prev(5, 7);
    assert_eq!(state.selected(), Some(2));
}

#[test]
fn huge_steps_do_not_overflow() {
    let mut state = at(Some(1));
    state.next(5, usize::MAX);
    assert_eq!(state.selected(), Some(4));
    let mut state = at(Some(usize::MAX - 1));
    state.next(usize::MAX, 3);
    assert_eq!(state.selected(), Some(0));
    let mut state = at(Some(1));
    state.prev(5, usize::MAX);
    assert_eq!(state.selected(), Some(0));
}

#[test]
fn forward_then_backward_returns() {
    for total in 1..7usize {
        for start in 0..total {
            for steps in 0..(3 * total) {
                let mut state = at(Some(start));
                for _ in 0..steps {
                    state.next(total, 1);
                }
                for _ in 0..steps {
                    state.prev(total, 1);
                }
                assert_eq!(state.selected(), Some(start));
            }
        }
    }
}

#[test]
fn backward_then_forward_returns() {
    let mut state = at(Some(1));
    for _ in 0..5 {
        state.prev(4, 1);
    }
    for _ in 0..5 {
        state.next(4, 1);
    }
    assert_eq!(state.selected(), Some(1));
}

#[test]
fn steps_stay_in_the_list() {
    let starts = [None, Some(0), Some(1), Some(4), Some(5), Some(17), Some(usize::MAX)];
    for total in 1..6usize {
        for increment in [0usize, 1, 2, 5, 9, usize::MAX] {
            for start in starts {
                let mut state = at(start);
                state.next(total, increment);
                assert!(state.selected().is_some_and(|i| i < total));
                let mut state = at(start);
                state.prev(total, increment);
                assert!(state.selected().is_some_and(|i| i < total));
            }
        }
    }
}
