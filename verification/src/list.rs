//! The selectable, optionally toggleable list the pages are built from:
//! entries with labels, values and icons, wrap-around selection, and
//! check-box toggling.

use vstd::prelude::*;

verus! {

/// One list entry: a label, an optional value identifying it, an optional
/// icon, and its toggle state.
pub struct ListItemEntry {
    pub label: String,
    pub value: Option<String>,
    pub icon: Option<char>,
    pub toggle: bool,
}

impl ListItemEntry {
    /// Whether the entry is checked.
    pub fn is_toggled(&self) -> (r: bool)
        ensures
            r == self.toggle,
    {
        self.toggle
    }
}

/// Builds one list entry field by field.
pub struct ListItemEntryBuilder {
    pub label: String,
    pub value: Option<String>,
    pub icon: Option<char>,
}

impl ListItemEntryBuilder {
    pub fn new(label: String) -> (r: ListItemEntryBuilder)
        ensures
            r.label == label,
            r.value is None,
            r.icon is None,
    {
        ListItemEntryBuilder { label, value: None, icon: None }
    }

    pub fn value(self, value: String) -> (r: ListItemEntryBuilder)
        ensures
            r.label == self.label,
            r.value == Some(value),
            r.icon == self.icon,
    {
        ListItemEntryBuilder { value: Some(value), ..self }
    }

    pub fn icon(self, icon: char) -> (r: ListItemEntryBuilder)
        ensures
            r.label == self.label,
            r.value == self.value,
            r.icon == Some(icon),
    {
        ListItemEntryBuilder { icon: Some(icon), ..self }
    }

    /// The finished entry, untoggled.
    pub fn build(self) -> (r: ListItemEntry)
        ensures
            r.label == self.label,
            r.value == self.value,
            r.icon == self.icon,
            r.toggle == false,
    {
        ListItemEntry { label: self.label, value: self.value, icon: self.icon, toggle: false }
    }
}

/// A list with a highlighted selection; in toggle mode each entry carries a
/// check box.
pub struct SelectableList {
    pub items: Vec<ListItemEntry>,
    pub selected: Option<usize>,
    pub highlight_symbol: String,
    pub toggled: bool,
    pub block_title: String,
}

impl SelectableList {
    /// A selection, when present, is in range.
    pub open spec fn wf(&self) -> bool {
        self.selected matches Some(i) ==> i < self.items@.len()
    }

    /// Moves the selection down, wrapping to the first entry.
    pub fn next(&mut self)
        requires
            old(self).wf(),
        ensures
            final(self).wf(),
            final(self).items == old(self).items,
            old(self).items@.len() == 0 ==> final(self).selected == old(self).selected,
            old(self).items@.len() > 0 ==> (final(self).selected matches Some(s) && s as int == {
                let i = (match old(self).selected {
                    Some(i) => i as int,
                    None => 0,
                });
                if i + 1 >= old(self).items@.len() {
                    0
                } else {
                    i + 1
                }
            }),
    {
        let n = self.items.len();
        if n > 0 {
            let i = match self.selected {
                Some(i) => i,
                None => 0,
            };
            let nxt = if i + 1 >= n {
                0
            } else {
                i + 1
            };
            self.selected = Some(nxt);
        }
    }

    /// Moves the selection up, wrapping to the last entry.
    pub fn previous(&mut self)
        requires
            old(self).wf(),
        ensures
            final(self).wf(),
            final(self).items == old(self).items,
            old(self).items@.len() == 0 ==> final(self).selected == old(self).selected,
            old(self).items@.len() > 0 ==> (final(self).selected matches Some(s) && s as int == {
                let i = (match old(self).selected {
                    Some(i) => i as int,
                    None => 0,
                });
                if i == 0 {
                    old(self).items@.len() - 1
                } else {
                    i - 1
                }
            }),
    {
        let n = self.items.len();
        if n > 0 {
            let i = match self.selected {
                Some(i) => i,
                None => 0,
            };
            let prev = if i == 0 {
                n - 1
            } else {
                i - 1
            };
            self.selected = Some(prev);
        }
    }

    /// The selected index, when one is set.
    pub fn selected_index(&self) -> (r: Option<usize>)
        ensures
            r == self.selected,
    {
        self.selected
    }

    /// The selected entry, when one is set and in range.
    pub fn selected_item(&self) -> (r: Option<&ListItemEntry>)
        requires
            self.wf(),
        ensures
            self.selected matches Some(i) ==> r matches Some(e) && e == &self.items@[i as int],
            self.selected is None ==> r is None,
    {
        match self.selected {
            Some(i) => Some(&self.items[i]),
            None => None,
        }
    }

    /// Flips the check box of the selected entry; only a toggle-mode list
    /// changes.
    pub fn toggle_selected(&mut self)
        requires
            old(self).wf(),
        ensures
            final(self).wf(),
            final(self).selected == old(self).selected,
            final(self).items@.len() == old(self).items@.len(),
            old(self).toggled ==> (old(self).selected matches Some(i) ==> {
                &&& final(self).items@[i as int].toggle == !old(self).items@[i as int].toggle
                &&& final(self).items@[i as int].label == old(self).items@[i as int].label
                &&& forall|j: int|
                    0 <= j < old(self).items@.len() && j != i ==> final(self).items@[j] == old(
                        self,
                    ).items@[j]
            }),
            !(old(self).toggled && old(self).selected is Some) ==> final(self).items == old(
                self,
            ).items,
    {
        if !self.toggled {
            return ;
        }
        match self.selected {
            Some(i) => {
                let was = self.items[i].toggle;
                let entry = &mut self.items[i];
                entry.toggle = !was;
            },
            None => {},
        }
    }

    /// Clears every check box.
    pub fn clear_selections(&mut self)
        ensures
            final(self).selected == old(self).selected,
            final(self).items@.len() == old(self).items@.len(),
            forall|j: int|
                0 <= j < old(self).items@.len() ==> {
                    &&& (#[trigger] final(self).items@[j]).toggle == false
                    &&& final(self).items@[j].label == old(self).items@[j].label
                    &&& final(self).items@[j].value == old(self).items@[j].value
                },
    {
        let n = self.items.len();
        let mut i: usize = 0;
        while i < n
            invariant
                n == self.items@.len(),
                self.items@.len() == old(self).items@.len(),
                self.selected == old(self).selected,
                i <= n,
                forall|j: int|
                    0 <= j < i ==> self.items@[j].toggle == false && self.items@[j].label == old(
                        self,
                    ).items@[j].label && self.items@[j].value == old(self).items@[j].value,
                forall|j: int| i <= j < n ==> self.items@[j] == old(self).items@[j],
            decreases n - i,
        {
            let entry = &mut self.items[i];
            entry.toggle = false;
            i += 1;
        }
    }

    /// The checked entries, in order.
    pub fn checked_items(&self) -> (r: Vec<&ListItemEntry>)
        ensures
            forall|k: int| 0 <= k < r@.len() ==> (#[trigger] r@[k]).toggle,
    {
        let n = self.items.len();
        let mut out: Vec<&ListItemEntry> = Vec::new();
        let mut i: usize = 0;
        while i < n
            invariant
                n == self.items@.len(),
                i <= n,
                forall|k: int| 0 <= k < out@.len() ==> (#[trigger] out@[k]).toggle,
            decreases n - i,
        {
            if self.items[i].toggle {
                out.push(&self.items[i]);
            }
            i += 1;
        }
        out
    }
}

/// Builds a selectable list field by field.
pub struct SelectableListBuilder {
    pub items: Vec<ListItemEntry>,
    pub highlight_symbol: Option<String>,
    pub toggled: bool,
    pub block_title: String,
}

impl SelectableListBuilder {
    pub fn new() -> (r: SelectableListBuilder)
        ensures
            r.items@.len() == 0,
            r.highlight_symbol is None,
            r.toggled == false,
            r.block_title@.len() == 0,
    {
        SelectableListBuilder {
            items: Vec::new(),
            highlight_symbol: None,
            toggled: false,
            block_title: String::new(),
        }
    }

    pub fn items(self, items: Vec<ListItemEntry>) -> (r: SelectableListBuilder)
        ensures
            r.items == items,
            r.highlight_symbol == self.highlight_symbol,
            r.toggled == self.toggled,
            r.block_title == self.block_title,
    {
        SelectableListBuilder { items, ..self }
    }

    /// Sets the highlight marker; a trailing space is kept after it.
    pub fn highlight_symbol(self, s: &str) -> (r: SelectableListBuilder)
        ensures
            r.items == self.items,
            r.highlight_symbol matches Some(h) && h@ == s@ + " "@,
            r.toggled == self.toggled,
            r.block_title == self.block_title,
    {
        let mut h = s.to_owned();
        h.append(" ");
        SelectableListBuilder { highlight_symbol: Some(h), ..self }
    }

    pub fn toggled(self, toggled: bool) -> (r: SelectableListBuilder)
        ensures
            r.items == self.items,
            r.highlight_symbol == self.highlight_symbol,
            r.toggled == toggled,
            r.block_title == self.block_title,
    {
        SelectableListBuilder { toggled, ..self }
    }

    pub fn block_title(self, title: String) -> (r: SelectableListBuilder)
        ensures
            r.items == self.items,
            r.highlight_symbol == self.highlight_symbol,
            r.toggled == self.toggled,
            r.block_title == title,
    {
        SelectableListBuilder { block_title: title, ..self }
    }

    /// The finished list; the first entry starts selected when one exists.
    pub fn build(self) -> (r: SelectableList)
        ensures
            r.wf(),
            r.items == self.items,
            self.items@.len() > 0 ==> r.selected == Some(0usize),
            self.items@.len() == 0 ==> r.selected is None,
            r.toggled == self.toggled,
            r.block_title == self.block_title,
            self.highlight_symbol matches Some(h) ==> r.highlight_symbol == h,
            self.highlight_symbol is None ==> r.highlight_symbol@ == ">> "@,
    {
        let selected = if self.items.len() > 0 {
            Some(0usize)
        } else {
            None
        };
        let highlight_symbol = match self.highlight_symbol {
            Some(h) => h,
            None => ">> ".to_owned(),
        };
        SelectableList {
            items: self.items,
            selected,
            highlight_symbol,
            toggled: self.toggled,
            block_title: self.block_title,
        }
    }
}

} // verus!
