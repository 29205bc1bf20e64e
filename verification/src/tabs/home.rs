//! The home view: a list of buttons the user moves a highlight through.
//! The historical session records the view also shows are plain display
//! data owned by the surrounding program; the core only tracks the cursor.

use vstd::prelude::*;

verus! {

/// The selectable entries of the home list, in display order.
#[derive(Clone, Copy, Debug, PartialEq, Eq, Structural)]
pub enum Button {
    StartStop,
    Dummy,
    Dummy2,
}

impl Button {
    /// Position of this entry in the list.
    pub open spec fn index_spec(self) -> int {
        match self {
            Button::StartStop => 0,
            Button::Dummy => 1,
            Button::Dummy2 => 2,
        }
    }

    /// The entry above this one; the first entry is its own predecessor.
    pub open spec fn prev_spec(self) -> Button {
        match self {
            Button::StartStop => Button::StartStop,
            Button::Dummy => Button::StartStop,
            Button::Dummy2 => Button::Dummy,
        }
    }

    /// The entry below this one; the last entry is its own successor.
    pub open spec fn next_spec(self) -> Button {
        match self {
            Button::StartStop => Button::Dummy,
            Button::Dummy => Button::Dummy2,
            Button::Dummy2 => Button::Dummy2,
        }
    }

    /// The label the list shows for this entry.
    pub open spec fn title_spec(self) -> Seq<char> {
        match self {
            Button::StartStop => "start/stop timer"@,
            Button::Dummy => "Dummy"@,
            Button::Dummy2 => "Dummy2"@,
        }
    }

    /// Move one entry up, stopping at the first entry.
    pub fn prev(self) -> (r: Button)
        ensures
            r == self.prev_spec(),
    {
        match self {
            Button::StartStop => Button::StartStop,
            Button::Dummy => Button::StartStop,
            Button::Dummy2 => Button::Dummy,
        }
    }

    /// Move one entry down, stopping at the last entry.
    pub fn next(self) -> (r: Button)
        ensures
            r == self.next_spec(),
    {
        match self {
            Button::StartStop => Button::Dummy,
            Button::Dummy => Button::Dummy2,
            Button::Dummy2 => Button::Dummy2,
        }
    }

    /// Position of this entry in the list, for the highlight.
    pub fn current_index(self) -> (i: usize)
        ensures
            i == self.index_spec(),
    {
        match self {
            Button::StartStop => 0,
            Button::Dummy => 1,
            Button::Dummy2 => 2,
        }
    }

    /// The label the list shows for this entry.
    pub fn title(self) -> (s: &'static str)
        ensures
            s@ == self.title_spec(),
    {
        match self {
            Button::StartStop => "start/stop timer",
            Button::Dummy => "Dummy",
            Button::Dummy2 => "Dummy2",
        }
    }
}

impl Default for Button {
    fn default() -> (d: Self)
        ensures
            d == Button::StartStop,
    {
        Button::StartStop
    }
}

/// Cursor state of the home view.
#[derive(Clone, Copy, Debug, PartialEq, Eq, Structural)]
pub struct HomeTab {
    pub row_index: usize,
    pub currently_selected_list_item: Button,
}

impl HomeTab {
    /// The state the home view starts in: the highlight on the first entry.
    pub open spec fn default_spec() -> HomeTab {
        HomeTab { row_index: 0, currently_selected_list_item: Button::StartStop }
    }

    /// A fresh home view.
    pub fn new() -> (t: HomeTab)
        ensures
            t == HomeTab::default_spec(),
    {
        HomeTab { row_index: 0, currently_selected_list_item: Button::StartStop }
    }

    /// The view after moving the highlight one entry up.
    pub open spec fn prev_row_spec(self) -> HomeTab {
        HomeTab { currently_selected_list_item: self.currently_selected_list_item.prev_spec(), ..self }
    }

    /// The view after moving the highlight one entry down.
    pub open spec fn next_row_spec(self) -> HomeTab {
        HomeTab { currently_selected_list_item: self.currently_selected_list_item.next_spec(), ..self }
    }

    /// Move the highlight one entry up, stopping at the first entry.
    pub fn prev_row(&mut self)
        ensures
            *final(self) == old(self).prev_row_spec(),
    {
        self.currently_selected_list_item = self.currently_selected_list_item.prev();
    }

    /// Move the highlight one entry down, stopping at the last entry.
    pub fn next_row(&mut self)
        ensures
            *final(self) == old(self).next_row_spec(),
    {
        self.currently_selected_list_item = self.currently_selected_list_item.next();
    }
}

impl Default for HomeTab {
    fn default() -> (t: Self)
        ensures
            t == HomeTab::default_spec(),
    {
        HomeTab::new()
    }
}

} // verus!
