//! The selection in the list of search results.
use vstd::prelude::*;

verus! {

/// Which entry of the result list is selected, if any. Moving the
/// selection follows the rules of the list widget that shows it: the index
/// is not bounded here, the widget brings it back into the list when it
/// draws it.
#[derive(Clone, Copy, Debug, PartialEq, Eq, Structural)]
pub struct ListSelection {
    pub selected: Option<usize>,
}

/// The selection after stepping forward: the first entry when there was none.
pub open spec fn next_selection(selected: Option<usize>) -> Option<usize> {
    match selected {
        None => Some(0),
        Some(i) => Some(if i == usize::MAX { i } else { (i + 1) as usize }),
    }
}

/// The selection after stepping back: the last entry when there was none.
pub open spec fn previous_selection(selected: Option<usize>) -> Option<usize> {
    match selected {
        None => Some(usize::MAX),
        Some(i) => Some(if i == 0 { 0 } else { (i - 1) as usize }),
    }
}

/// Stepping back from an entry selects the one just before it (the first
/// stays selected), stepping forward selects the one just after it (the
/// largest index stays selected), and with nothing selected stepping forward
/// selects the first entry and stepping back the largest index.
pub proof fn law_selection_steps(i: usize)
    ensures
        0 < i ==> previous_selection(Some(i)) == Some((i - 1) as usize),
        previous_selection(Some(0usize)) == Some(0usize),
        previous_selection(None) == Some(usize::MAX),
        i < usize::MAX ==> next_selection(Some(i)) == Some((i + 1) as usize),
        next_selection(Some(usize::MAX)) == Some(usize::MAX),
        next_selection(None) == Some(0usize),
{
}

/// A step forward and a step back undo each other away from both ends.
pub proof fn law_selection_steps_undo(i: usize)
    requires
        0 < i < usize::MAX,
    ensures
        previous_selection(next_selection(Some(i))) == Some(i),
        next_selection(previous_selection(Some(i))) == Some(i),
{
}

impl ListSelection {
    /// A selection of `selected`.
    pub fn with_selected(selected: Option<usize>) -> (s: ListSelection)
        ensures
            s.selected == selected,
    {
        ListSelection { selected }
    }

    /// The selected index.
    pub fn selected(&self) -> (i: Option<usize>)
        ensures
            i == self.selected,
    {
        self.selected
    }

    /// Selects the entry after the selected one, or the first one.
    pub fn select_next(&mut self)
        ensures
            final(self).selected == next_selection(old(self).selected),
    {
        let next = match self.selected {
            None => 0,
            Some(i) => i.saturating_add(1),
        };
        self.selected = Some(next);
    }

    /// Selects the entry before the selected one, or the last one.
    pub fn select_previous(&mut self)
        ensures
            final(self).selected == previous_selection(old(self).selected),
    {
        let previous = match self.selected {
            None => usize::MAX,
            Some(i) => i.saturating_sub(1),
        };
        self.selected = Some(previous);
    }
}

} // verus!
