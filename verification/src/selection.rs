use vstd::prelude::*;

verus! {

/// The cursor of a list on screen: which entry is selected, if any, and the
/// index of the first entry in view.
///
/// A selection may point past the end of the list (`select_last` points at
/// `usize::MAX`); drawing the list brings it back to the last entry.
#[derive(Debug, Clone, Copy, PartialEq, Eq, Structural)]
pub struct ListSelection {
    pub offset: usize,
    pub selected: Option<usize>,
}

impl ListSelection {
    /// No entry selected, the view at the top.
    pub fn new() -> (res: ListSelection)
        ensures
            res.selected is None,
            res.offset == 0,
    {
        ListSelection { offset: 0, selected: None }
    }

    /// The selected entry.
    pub fn selected(&self) -> (res: Option<usize>)
        ensures
            res == self.selected,
    {
        self.selected
    }

    /// Selects an entry, or none; clearing the selection also scrolls back to the top.
    pub fn select(&mut self, index: Option<usize>)
        ensures
            final(self).selected == index,
            final(self).offset == (if index is None { 0 } else { old(self).offset }),
    {
        self.selected = index;
        if index.is_none() {
            self.offset = 0;
        }
    }

    /// Selects the first entry.
    pub fn select_first(&mut self)
        ensures
            final(self).selected == Some(0usize),
            final(self).offset == old(self).offset,
    {
        self.select(Some(0));
    }

    /// Selects the last entry: the index `usize::MAX`, which drawing brings
    /// back to the end of the list.
    pub fn select_last(&mut self)
        ensures
            final(self).selected == Some(usize::MAX),
            final(self).offset == old(self).offset,
    {
        self.select(Some(usize::MAX));
    }

    /// Moves the selection one entry down (the first entry when nothing is selected).
    pub fn select_next(&mut self)
        ensures
            final(self).selected == Some(next_index(old(self).selected)),
            final(self).offset == old(self).offset,
    {
        let next = match self.selected {
            Some(i) => i.saturating_add(1),
            None => 0,
        };
        self.select(Some(next));
    }

    /// Moves the selection one entry up (the last entry when nothing is selected).
    pub fn select_previous(&mut self)
        ensures
            final(self).selected == Some(previous_index(old(self).selected)),
            final(self).offset == old(self).offset,
    {
        let previous = match self.selected {
            Some(i) => i.saturating_sub(1),
            None => usize::MAX,
        };
        self.select(Some(previous));
    }
}

/// The entry below `selected`, saturating at `usize::MAX`; the first entry when none is selected.
pub open spec fn next_index(selected: Option<usize>) -> usize {
    match selected {
        Some(i) => if i == usize::MAX { usize::MAX } else { (i + 1) as usize },
        None => 0,
    }
}

/// The entry above `selected`, saturating at 0; the last entry when none is selected.
pub open spec fn previous_index(selected: Option<usize>) -> usize {
    match selected {
        Some(i) => if i == 0 { 0 } else { (i - 1) as usize },
        None => usize::MAX,
    }
}

} // verus!
