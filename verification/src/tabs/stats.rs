//! The stats view: a placeholder list the user moves a row cursor through.

use vstd::prelude::*;

verus! {

/// Cursor state of the stats view.
#[derive(Clone, Copy, Debug, PartialEq, Eq, Structural)]
pub struct StatsTab {
    pub row_index: usize,
}

impl StatsTab {
    /// The state the stats view starts in: the cursor on the first row.
    pub open spec fn default_spec() -> StatsTab {
        StatsTab { row_index: 0 }
    }

    /// The view after moving the cursor one row up, stopping at the first
    /// row.
    pub open spec fn prev_row_spec(self) -> StatsTab {
        StatsTab {
            row_index: if self.row_index > 0 {
                (self.row_index - 1) as usize
            } else {
                0
            },
        }
    }

    /// The view after moving the cursor one row down, stopping at the
    /// largest representable index.
    pub open spec fn next_row_spec(self) -> StatsTab {
        StatsTab {
            row_index: if self.row_index < usize::MAX {
                (self.row_index + 1) as usize
            } else {
                usize::MAX
            },
        }
    }

    /// Move the cursor one row up, stopping at the first row.
    pub fn prev_row(&mut self)
        ensures
            *final(self) == old(self).prev_row_spec(),
    {
        if self.row_index > 0 {
            self.row_index = self.row_index - 1;
        }
    }

    /// Move the cursor one row down, stopping at the largest representable
    /// index.
    pub fn next_row(&mut self)
        ensures
            *final(self) == old(self).next_row_spec(),
    {
        if self.row_index < usize::MAX {
            self.row_index = self.row_index + 1;
        }
    }
}

impl Default for StatsTab {
    fn default() -> (t: Self)
        ensures
            t == StatsTab::default_spec(),
    {
        StatsTab { row_index: 0 }
    }
}

} // verus!
