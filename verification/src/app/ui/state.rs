//! The selection in a table and how the navigation keys move it.
use vstd::prelude::*;

verus! {

/// The state of a table on screen: which row is selected, if any.
#[derive(Clone, Copy, Debug, PartialEq, Eq, Structural)]
pub struct TableState {
    selected: Option<usize>,
}

impl Default for TableState {
    fn default() -> (state: TableState)
        ensures
            state.selection() is None,
    {
        TableState { selected: None }
    }
}

impl TableState {
    /// The selected row as a mathematical value.
    pub closed spec fn selection(&self) -> Option<usize> {
        self.selected
    }

    /// A table with nothing selected.
    pub fn new() -> (state: TableState)
        ensures
            state.selection() is None,
    {
        TableState { selected: None }
    }

    /// The index of the selected row.
    pub fn selected(&self) -> (index: Option<usize>)
        ensures
            index == self.selection(),
    {
        self.selected
    }

    /// Selects a row, or none.
    pub fn select(&mut self, index: Option<usize>)
        ensures
            final(self).selection() == index,
    {
        self.selected = index;
    }
}

/// Where a step forward by `increment` leaves the selection in a list of
/// `total` rows: always on a row of the list. From the last row it wraps to
/// the first; short of the end, or from beyond it, it stops at the last
/// row. An unset selection moves to the first row. An empty list has no
/// selection.
pub open spec fn next_index(selected: Option<usize>, total: usize, increment: usize) -> Option<
    usize,
> {
    if total == 0 {
        None
    } else {
        match selected {
            Some(i) => if i == total - 1 {
                Some(0)
            } else if i + increment >= total {
                Some((total - 1) as usize)
            } else {
                Some((i + increment) as usize)
            },
            None => Some(0),
        }
    }
}

/// Where a step backward by `increment` leaves the selection in a list of
/// `total` rows: always on a row of the list. From the first row it wraps
/// to the last; short of the start it stops at the first row; from beyond
/// the end it goes no further than the last row. An unset selection moves
/// to the first row. An empty list has no selection.
pub open spec fn prev_index(selected: Option<usize>, total: usize, increment: usize) -> Option<
    usize,
> {
    if total == 0 {
        None
    } else {
        match selected {
            Some(i) => if i == 0 {
                Some((total - 1) as usize)
            } else if i < increment {
                Some(0)
            } else if i - increment >= total {
                Some((total - 1) as usize)
            } else {
                Some((i - increment) as usize)
            },
            None => Some(0),
        }
    }
}

/// A step in either direction leaves the selection on a row of the list,
/// wherever it was before, and unset exactly where the list is empty.
pub proof fn lemma_steps_stay_in_list(selected: Option<usize>, total: usize, increment: usize)
    ensures
        total == 0 ==> next_index(selected, total, increment) is None && prev_index(
            selected,
            total,
            increment,
        ) is None,
        total > 0 ==> (next_index(selected, total, increment) matches Some(i) && i < total),
        total > 0 ==> (prev_index(selected, total, increment) matches Some(i) && i < total),
{
}

/// Moving a selection through a list.
pub trait Paging {
    /// The selected row.
    spec fn selection_index(&self) -> Option<usize>;

    fn next(&mut self, total: usize, increment: usize)
        ensures
            final(self).selection_index() == next_index(
                old(self).selection_index(),
                total,
                increment,
            ),
    ;

    fn prev(&mut self, total: usize, increment: usize)
        ensures
            final(self).selection_index() == prev_index(
                old(self).selection_index(),
                total,
                increment,
            ),
    ;
}

impl Paging for TableState {
    open spec fn selection_index(&self) -> Option<usize> {
        self.selection()
    }

    fn next(&mut self, total: usize, increment: usize) {
        if total == 0 {
            self.select(None);
            return ;
        }
        let index: usize = match self.selected() {
            Some(i) => {
                if i == total - 1 {
                    0
                } else if i >= total || increment >= total - i {
                    total - 1
                } else {
                    i + increment
                }
            },
            None => 0,
        };
        self.select(Some(index));
    }

    fn prev(&mut self, total: usize, increment: usize) {
        if total == 0 {
            self.select(None);
            return ;
        }
        let index: usize = match self.selected() {
            Some(i) => {
                if i == 0 {
                    total - 1
                } else if i < increment {
                    0
                } else if i - increment >= total {
                    total - 1
                } else {
                    i - increment
                }
            },
            None => 0,
        };
        self.select(Some(index));
    }
}

/// The selection after `steps` single steps forward.
pub open spec fn forward(selected: Option<usize>, total: usize, steps: nat) -> Option<usize>
    decreases steps,
{
    if steps == 0 {
        selected
    } else {
        next_index(forward(selected, total, (steps - 1) as nat), total, 1)
    }
}

/// The selection after `steps` single steps backward.
pub open spec fn backward(selected: Option<usize>, total: usize, steps: nat) -> Option<usize>
    decreases steps,
{
    if steps == 0 {
        selected
    } else {
        backward(prev_index(selected, total, 1), total, (steps - 1) as nat)
    }
}

/// Single steps forward keep a selection that is in the list in the list.
pub proof fn lemma_forward_in_range(start: usize, total: usize, steps: nat)
    requires
        start < total,
    ensures
        forward(Some(start), total, steps) matches Some(i) && i < total,
    decreases steps,
{
    if steps > 0 {
        lemma_forward_in_range(start, total, (steps - 1) as nat);
    }
}

/// A single step backward undoes a single step forward, and the other way
/// round, wrapping included.
pub proof fn lemma_step_back_and_forth(index: usize, total: usize)
    requires
        index < total,
    ensures
        prev_index(next_index(Some(index), total, 1), total, 1) == Some(index),
        next_index(prev_index(Some(index), total, 1), total, 1) == Some(index),
{
}

/// In a list that does not change, as many single steps backward as
/// forward lead back to the row from which they started, wrapping at both
/// ends included.
pub proof fn lemma_forward_then_backward(start: usize, total: usize, steps: nat)
    requires
        start < total,
    ensures
        backward(forward(Some(start), total, steps), total, steps) == Some(start),
    decreases steps,
{
    if steps > 0 {
        let before = (steps - 1) as nat;
        lemma_forward_in_range(start, total, before);
        lemma_step_back_and_forth(forward(Some(start), total, before)->0, total);
        lemma_forward_then_backward(start, total, before);
    }
}

} // verus!
