//! The settings view: a list the user moves a row cursor through.

use vstd::prelude::*;

verus! {

/// Cursor state of the settings view.
#[derive(Clone, Copy, Debug, PartialEq, Eq, Structural)]
pub struct SettingsTab {
    pub row_index: usize,
}

impl SettingsTab {
    /// The state the settings view starts in: the cursor on the first row.
    pub open spec fn default_spec() -> SettingsTab {
        SettingsTab { row_index: 0 }
    }

    /// The view after moving the cursor one row up, stopping at the first
    /// row.
    pub open spec fn prev_row_spec(self) -> SettingsTab {
        SettingsTab {
            row_index: if self.row_index > 0 {
                (self.row_index - 1) as usize
            } else {
                0
            },
        }
    }

    /// The view after moving the cursor one row down, stopping at the
    /// largest representable index.
    pub open spec fn next_row_spec(self) -> SettingsTab {
        SettingsTab {
            row_index: if self.row_index < usize::MAX {
                (self.row_index + 1) as usize
            } else {
                usize::MAX
            },
        }
    }

    /// Move the cursor one row up, stopping at the first row.
    pub fn prev_row(&mut self)
        ensures
            *final(self) == old(self).prev_row_spec(),
    {
        if self.row_index > 0 {
            self.row_index = self.row_index - 1;
        }
    }

    /// Move the cursor one row down, stopping at the largest representable
    /// index.
    pub fn next_row(&mut self)
        ensures
            *final(self) == old(self).next_row_spec(),
    {
        if self.row_index < usize::MAX {
            self.row_index = self.row_index + 1;
        }
    }
}

impl Default for SettingsTab {
    fn default() -> (t: Self)
        ensures
            t == SettingsTab::default_spec(),
    {
        SettingsTab { row_index: 0 }
    }
}

} // verus!
