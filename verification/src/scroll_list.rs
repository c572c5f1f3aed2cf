//! The selection of a scrollable list of a given length.
use vstd::prelude::*;

verus! {

/// The state of a list selection, as contracts speak of it.
pub struct ScrollListView {
    pub selected: Option<int>,
    pub len: int,
    pub wrap: bool,
}

/// A selection within a list of `len` items; scrolling past either end stops there, or wraps
/// round when wrapping is on.
pub struct ScrollList {
    selected: Option<usize>,
    len: usize,
    wrap: bool,
}

/// Something is selected exactly when the list is not empty, and it is one of the items.
pub open spec fn selection_ok(s: ScrollListView) -> bool {
    match s.selected {
        Some(i) => 0 <= i < s.len,
        None => s.len == 0,
    }
}

/// The selection after one step up.
pub open spec fn up_spec(s: ScrollListView) -> Option<int> {
    if s.len == 0 {
        s.selected
    } else {
        let i = match s.selected {
            Some(i) => i,
            None => 0,
        };
        if i == 0 {
            if s.wrap {
                Some(s.len - 1)
            } else {
                Some(0)
            }
        } else {
            Some(i - 1)
        }
    }
}

/// The selection after one step down.
pub open spec fn down_spec(s: ScrollListView) -> Option<int> {
    if s.len == 0 {
        s.selected
    } else {
        let i = match s.selected {
            Some(i) => i,
            None => 0,
        };
        if i + 1 >= s.len {
            if s.wrap {
                Some(0)
            } else {
                Some(s.len - 1)
            }
        } else {
            Some(i + 1)
        }
    }
}

/// The selection after the length becomes `len`: kept when still inside, moved to the last
/// item when past the end, the first item when there was none.
pub open spec fn resize_spec(selected: Option<int>, len: int) -> Option<int> {
    match selected {
        Some(i) => if i >= len {
            if len > 0 {
                Some(len - 1)
            } else {
                None
            }
        } else {
            Some(i)
        },
        None => if len > 0 {
            Some(0)
        } else {
            None
        },
    }
}

/// The optional index as an integer.
pub open spec fn opt_int(o: Option<usize>) -> Option<int> {
    match o {
        Some(i) => Some(i as int),
        None => None,
    }
}

impl View for ScrollList {
    type V = ScrollListView;

    closed spec fn view(&self) -> ScrollListView {
        ScrollListView { selected: opt_int(self.selected), len: self.len as int, wrap: self.wrap }
    }
}

impl ScrollList {
    #[verifier::type_invariant]
    spec fn selection_in_list(self) -> bool {
        match self.selected {
            Some(i) => i < self.len,
            None => self.len == 0,
        }
    }

    /// A list of `len` items, its first item selected (if any), without wrapping.
    pub fn new(len: usize) -> (s: ScrollList)
        ensures
            s@ == (ScrollListView {
                selected: if len > 0 {
                    Some(0)
                } else {
                    None
                },
                len: len as int,
                wrap: false,
            }),
    {
        ScrollList {
            selected: if len > 0 {
                Some(0)
            } else {
                None
            },
            len,
            wrap: false,
        }
    }

    /// Turns wrapping round the ends on or off.
    pub fn wrap(&mut self, wrap: bool)
        ensures
            final(self)@ == (ScrollListView { wrap, ..old(self)@ }),
    {
        proof {
            use_type_invariant(&*self);
        }
        self.wrap = wrap;
    }

    /// Sets the number of items, keeping the selection inside the list.
    pub fn set_len(&mut self, len: usize)
        ensures
            final(self)@ == (ScrollListView {
                selected: resize_spec(old(self)@.selected, len as int),
                len: len as int,
                ..old(self)@
            }),
    {
        let sel = match self.selected {
            Some(i) => if i >= len {
                if len > 0 {
                    Some(len - 1)
                } else {
                    None
                }
            } else {
                Some(i)
            },
            None => if len > 0 {
                Some(0)
            } else {
                None
            },
        };
        *self = ScrollList { selected: sel, len, wrap: self.wrap };
    }

    /// Selects the previous item; at the first item, stays or wraps to the last.
    pub fn scroll_up(&mut self)
        ensures
            final(self)@ == (ScrollListView { selected: up_spec(old(self)@), ..old(self)@ }),
    {
        proof {
            use_type_invariant(&*self);
        }
        if self.len == 0 {
            return;
        }
        let i = match self.selected {
            Some(i) => i,
            None => 0,
        };
        let prev = if i == 0 {
            if self.wrap {
                self.len - 1
            } else {
                0
            }
        } else {
            i - 1
        };
        self.selected = Some(prev);
    }

    /// Selects the next item; at the last item, stays or wraps to the first.
    pub fn scroll_down(&mut self)
        ensures
            final(self)@ == (ScrollListView { selected: down_spec(old(self)@), ..old(self)@ }),
    {
        proof {
            use_type_invariant(&*self);
        }
        if self.len == 0 {
            return;
        }
        let i = match self.selected {
            Some(i) => i,
            None => 0,
        };
        let next = if i >= self.len - 1 {
            if self.wrap {
                0
            } else {
                self.len - 1
            }
        } else {
            i + 1
        };
        self.selected = Some(next);
    }

    /// Selects item `index`, or the last item when `index` is past the end; an empty list
    /// keeps no selection.
    pub fn select(&mut self, index: usize)
        ensures
            final(self)@ == (ScrollListView {
                selected: if old(self)@.len > 0 {
                    Some(if index < old(self)@.len - 1 { index as int } else { old(self)@.len - 1 })
                } else {
                    old(self)@.selected
                },
                ..old(self)@
            }),
    {
        proof {
            use_type_invariant(&*self);
        }
        if self.len > 0 {
            let last = self.len - 1;
            self.selected = Some(if index < last {
                index
            } else {
                last
            });
        }
    }

    /// The selected item, if any.
    pub fn selected(&self) -> (i: Option<usize>)
        ensures
            opt_int(i) == self@.selected,
            selection_ok(self@),
    {
        proof {
            use_type_invariant(self);
        }
        self.selected
    }
}

} // verus!
