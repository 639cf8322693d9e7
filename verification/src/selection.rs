//! Selection state of a list widget.

use crate::types::{FlowControl, Parity};
use vstd::prelude::*;

verus! {

/// Which item of a list is selected, and the index of the first item drawn.
#[derive(Debug, Clone, Copy, PartialEq, Eq, Structural)]
pub struct ListSelection {
    pub offset: usize,
    pub selected: Option<usize>,
}

impl Default for ListSelection {
    fn default() -> (r: ListSelection)
        ensures
            r == (ListSelection { offset: 0, selected: None }),
    {
        ListSelection { offset: 0, selected: None }
    }
}

impl ListSelection {
    /// The selection after `index` was selected: clearing the selection
    /// also scrolls back to the top.
    pub open spec fn after_select(self, index: Option<usize>) -> ListSelection {
        ListSelection { offset: if index is None { 0 } else { self.offset }, selected: index }
    }

    /// A selection that starts at the top of the list with `index` selected.
    pub fn starting_at(index: Option<usize>) -> (r: ListSelection)
        ensures
            r == (ListSelection { offset: 0, selected: index }),
    {
        ListSelection { offset: 0, selected: index }
    }

    /// The selected index.
    pub fn selected(&self) -> (r: Option<usize>)
        ensures
            r == self.selected,
    {
        self.selected
    }

    /// The selection moved to `position`, if a position is given; the same
    /// selection if none is.
    pub fn moved_to(self, position: Option<usize>) -> (r: ListSelection)
        ensures
            r == match position {
                Some(i) => self.after_select(Some(i)),
                None => self,
            },
    {
        match position {
            Some(i) => ListSelection { offset: self.offset, selected: Some(i) },
            None => self,
        }
    }

    /// Selects `index`, or clears the selection.
    pub fn select(&mut self, index: Option<usize>)
        ensures
            *final(self) == old(self).after_select(index),
    {
        self.selected = index;
        if index.is_none() {
            self.offset = 0;
        }
    }
}

/// Position of the first item of `items` that equals `value`.
pub open spec fn first_position<T>(items: Seq<T>, value: T) -> Option<int>
    decreases items.len(),
{
    if items.len() == 0 {
        None
    } else {
        match first_position(items.drop_last(), value) {
            Some(i) => Some(i),
            None => if items.last() == value {
                Some(items.len() - 1)
            } else {
                None
            },
        }
    }
}

/// `first_position` finds an index of the list at which the value stands,
/// and none before it holds the value.
pub proof fn lemma_first_position<T>(items: Seq<T>, value: T)
    ensures
        match first_position(items, value) {
            Some(i) => {
                &&& 0 <= i < items.len()
                &&& items[i] == value
                &&& forall|j: int| 0 <= j < i ==> items[j] != value
            },
            None => forall|j: int| 0 <= j < items.len() ==> items[j] != value,
        },
    decreases items.len(),
{
    if items.len() > 0 {
        let front = items.drop_last();
        lemma_first_position(front, value);
        match first_position(front, value) {
            Some(i) => {
                assert(front[i as int] == items[i]);
                assert forall|j: int| 0 <= j < i implies items[j] != value by {
                    assert(front[j] == items[j]);
                }
            },
            None => {
                assert forall|j: int| 0 <= j < items.len() - 1 implies items[j] != value by {
                    assert(front[j] == items[j]);
                }
            },
        }
    }
}

/// Position of the first number of `items` that equals `value`.
pub fn position_of_u32(items: &[u32], value: u32) -> (r: Option<usize>)
    ensures
        first_position(items@, value) == match r {
            Some(i) => Some(i as int),
            None => None,
        },
        match r {
            Some(i) => i < items@.len(),
            None => true,
        },
{
    let mut i: usize = 0;
    while i < items.len()
        invariant
            i <= items@.len(),
            forall|j: int| 0 <= j < i ==> items@[j] != value,
        decreases items@.len() - i,
    {
        if items[i] == value {
            proof {
                lemma_first_position(items@, value);
            }
            return Some(i);
        }
        i += 1;
    }
    proof {
        lemma_first_position(items@, value);
    }
    None
}

/// Position of the first number of `items` that equals `value`.
pub fn position_of_u8(items: &[u8], value: u8) -> (r: Option<usize>)
    ensures
        first_position(items@, value) == match r {
            Some(i) => Some(i as int),
            None => None,
        },
        match r {
            Some(i) => i < items@.len(),
            None => true,
        },
{
    let mut i: usize = 0;
    while i < items.len()
        invariant
            i <= items@.len(),
            forall|j: int| 0 <= j < i ==> items@[j] != value,
        decreases items@.len() - i,
    {
        if items[i] == value {
            proof {
                lemma_first_position(items@, value);
            }
            return Some(i);
        }
        i += 1;
    }
    proof {
        lemma_first_position(items@, value);
    }
    None
}

/// Position of the first parity setting of `items` that equals `value`.
pub fn position_of_parity(items: &[Parity], value: Parity) -> (r: Option<usize>)
    ensures
        first_position(items@, value) == match r {
            Some(i) => Some(i as int),
            None => None,
        },
        match r {
            Some(i) => i < items@.len(),
            None => true,
        },
{
    let mut i: usize = 0;
    while i < items.len()
        invariant
            i <= items@.len(),
            forall|j: int| 0 <= j < i ==> items@[j] != value,
        decreases items@.len() - i,
    {
        if items[i] == value {
            proof {
                lemma_first_position(items@, value);
            }
            return Some(i);
        }
        i += 1;
    }
    proof {
        lemma_first_position(items@, value);
    }
    None
}

/// Position of the first flow control setting of `items` that equals `value`.
pub fn position_of_flow_control(items: &[FlowControl], value: FlowControl) -> (r: Option<usize>)
    ensures
        first_position(items@, value) == match r {
            Some(i) => Some(i as int),
            None => None,
        },
        match r {
            Some(i) => i < items@.len(),
            None => true,
        },
{
    let mut i: usize = 0;
    while i < items.len()
        invariant
            i <= items@.len(),
            forall|j: int| 0 <= j < i ==> items@[j] != value,
        decreases items@.len() - i,
    {
        if items[i] == value {
            proof {
                lemma_first_position(items@, value);
            }
            return Some(i);
        }
        i += 1;
    }
    proof {
        lemma_first_position(items@, value);
    }
    None
}

} // verus!
