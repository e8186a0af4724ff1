//! Index arithmetic of the selection: next, previous, first and last over the
//! current number of matches.

use vstd::prelude::*;

verus! {

/// What a delegate reports about its matches: how many there are and which one
/// is selected.
#[derive(Copy, Clone, Debug, PartialEq, Eq, Structural)]
pub struct Matches {
    pub count: usize,
    pub selected_index: usize,
}

/// The index after `index` among `count` matches, wrapping to the first past the end.
pub open spec fn next_index(count: int, index: int) -> int {
    if index + 1 == count {
        0
    } else {
        index + 1
    }
}

/// The index before `index` among `count` matches, wrapping to the last before the start.
pub open spec fn prev_index(count: int, index: int) -> int {
    if index == 0 {
        count - 1
    } else {
        index - 1
    }
}

impl Matches {
    /// The selected index is a valid index whenever there is a match. With no
    /// match the index is the delegate's business.
    pub open spec fn wf(self) -> bool {
        self.count > 0 ==> self.selected_index < self.count
    }

    /// The report `(count, selected_index)`, or `None` where the selected
    /// index is out of range.
    pub fn new(count: usize, selected_index: usize) -> (matches: Option<Matches>)
        ensures
            matches == if count > 0 && selected_index >= count {
                None
            } else {
                Some(Matches { count, selected_index })
            },
            matches matches Some(m) ==> m.wf(),
    {
        if count > 0 && selected_index >= count {
            None
        } else {
            Some(Matches { count, selected_index })
        }
    }

    /// The index that "select next" moves to: `None` without matches.
    pub open spec fn spec_next(self) -> Option<usize> {
        if self.count > 0 {
            Some(next_index(self.count as int, self.selected_index as int) as usize)
        } else {
            None
        }
    }

    /// The index that "select previous" moves to: `None` without matches.
    pub open spec fn spec_prev(self) -> Option<usize> {
        if self.count > 0 {
            Some(prev_index(self.count as int, self.selected_index as int) as usize)
        } else {
            None
        }
    }

    /// The index that "select first" moves to: `None` without matches.
    pub open spec fn spec_first(self) -> Option<usize> {
        if self.count > 0 {
            Some(0usize)
        } else {
            None
        }
    }

    /// The index that "select last" moves to: `None` without matches.
    pub open spec fn spec_last(self) -> Option<usize> {
        if self.count > 0 {
            Some((self.count - 1) as usize)
        } else {
            None
        }
    }

    /// The index on which the selection comes to rest after the matches
    /// changed: the selected index where it is in range, the last index where
    /// it is beyond the end, `None` without matches.
    pub open spec fn spec_clamped(self) -> Option<usize> {
        if self.count == 0 {
            None
        } else if self.selected_index < self.count {
            Some(self.selected_index)
        } else {
            Some((self.count - 1) as usize)
        }
    }

    pub fn clamped(&self) -> (ix: Option<usize>)
        ensures
            ix == self.spec_clamped(),
            ix matches Some(i) ==> i < self.count,
    {
        if self.count == 0 {
            None
        } else if self.selected_index < self.count {
            Some(self.selected_index)
        } else {
            Some(self.count - 1)
        }
    }

    pub fn next(&self) -> (ix: Option<usize>)
        requires
            self.wf(),
        ensures
            ix == self.spec_next(),
            ix matches Some(i) ==> i < self.count,
    {
        if self.count > 0 {
            Some(if self.selected_index == self.count - 1 {
                0
            } else {
                self.selected_index + 1
            })
        } else {
            None
        }
    }

    pub fn prev(&self) -> (ix: Option<usize>)
        requires
            self.wf(),
        ensures
            ix == self.spec_prev(),
            ix matches Some(i) ==> i < self.count,
    {
        if self.count > 0 {
            Some(if self.selected_index == 0 {
                self.count - 1
            } else {
                self.selected_index - 1
            })
        } else {
            None
        }
    }

    pub fn first(&self) -> (ix: Option<usize>)
        ensures
            ix == self.spec_first(),
            ix matches Some(i) ==> i < self.count,
    {
        if self.count > 0 {
            Some(0)
        } else {
            None
        }
    }

    pub fn last(&self) -> (ix: Option<usize>)
        ensures
            ix == self.spec_last(),
            ix matches Some(i) ==> i < self.count,
    {
        if self.count > 0 {
            Some(self.count - 1)
        } else {
            None
        }
    }
}

/// Moving to the next, previous, first or last match always lands on a valid index.
pub proof fn lemma_moves_stay_in_bounds(count: int, index: int)
    requires
        0 <= index < count,
    ensures
        0 <= next_index(count, index) < count,
        0 <= prev_index(count, index) < count,
{
}

/// "Previous" undoes "next" and "next" undoes "previous", on every valid
/// index of a non-empty list of matches.
pub proof fn lemma_prev_next_inverse(count: int, index: int)
    requires
        0 <= index < count,
    ensures
        prev_index(count, next_index(count, index)) == index,
        next_index(count, prev_index(count, index)) == index,
{
}

} // verus!
