//! State logic of the terminal widgets: selection movement with wrap-
//! around, scrolling windows, text wrapping, dropdown state, progress
//! accounting, and toggleable lists. Rendering belongs to the UI layer
//! outside the engine.

use vstd::prelude::*;
use vstd::string::StrSliceExecFns;
use vstd::string::StringExecFns;

verus! {

/// An entry of the description menu: an icon, a label, and the description
/// shown while it is selected.
#[derive(Clone)]
pub struct DescriptionMenuItem {
    pub icon: char,
    pub label: String,
    pub description: String,
}

/// A vertical menu with a scrolling window and a description box.
pub struct DescriptionMenu {
    pub items: Vec<DescriptionMenuItem>,
    pub selected: usize,
    pub scroll_offset: usize,
    pub max_visible: usize,
}

impl DescriptionMenu {
    /// The selection is in range (or zero for an empty menu), and the
    /// scrolling window holds it.
    pub open spec fn wf(&self) -> bool {
        &&& self.items@.len() > 0 ==> self.selected < self.items@.len()
        &&& self.items@.len() == 0 ==> self.selected == 0
        &&& self.max_visible >= 1
        &&& self.scroll_offset <= self.selected || self.selected == 0
    }

    pub fn new(items: Vec<DescriptionMenuItem>) -> (r: DescriptionMenu)
        ensures
            r.items == items,
            r.selected == 0,
            r.scroll_offset == 0,
            r.max_visible == 8,
            r.wf(),
    {
        DescriptionMenu { items, selected: 0, scroll_offset: 0, max_visible: 8 }
    }

    /// Moves the selection down, wrapping from the last entry to the first.
    pub fn next(&mut self)
        requires
            old(self).wf(),
        ensures
            final(self).wf(),
            final(self).items == old(self).items,
            old(self).items@.len() == 0 ==> final(self).selected == old(self).selected,
            old(self).items@.len() > 0 ==> final(self).selected == (if old(self).selected + 1
                >= old(self).items@.len() {
                0
            } else {
                old(self).selected + 1
            }),
    {
        if self.items.len() == 0 {
            return ;
        }
        if self.selected + 1 >= self.items.len() {
            self.selected = 0;
        } else {
            self.selected = self.selected + 1;
        }
        self.adjust_scroll();
    }

    /// Moves the selection up, wrapping from the first entry to the last.
    pub fn previous(&mut self)
        requires
            old(self).wf(),
        ensures
            final(self).wf(),
            final(self).items == old(self).items,
            old(self).items@.len() == 0 ==> final(self).selected == old(self).selected,
            old(self).items@.len() > 0 ==> final(self).selected == (if old(self).selected == 0 {
                old(self).items@.len() - 1
            } else {
                old(self).selected - 1
            }),
    {
        if self.items.len() == 0 {
            return ;
        }
        if self.selected == 0 {
            self.selected = self.items.len() - 1;
        } else {
            self.selected = self.selected - 1;
        }
        self.adjust_scroll();
    }

    /// The selected index.
    pub fn selected_index(&self) -> (r: usize)
        ensures
            r == self.selected,
    {
        self.selected
    }

    /// Moves the scrolling window so that it holds the selection.
    fn adjust_scroll(&mut self)
        requires
            old(self).max_visible >= 1,
            old(self).items@.len() > 0 ==> old(self).selected < old(self).items@.len(),
            old(self).items@.len() == 0 ==> old(self).selected == 0,
        ensures
            final(self).wf(),
            final(self).items == old(self).items,
            final(self).selected == old(self).selected,
            final(self).max_visible == old(self).max_visible,
            final(self).scroll_offset <= final(self).selected,
            final(self).selected < final(self).scroll_offset + final(self).max_visible,
    {
        if self.selected < self.scroll_offset {
            self.scroll_offset = self.selected;
        } else if self.selected >= self.max_visible && self.scroll_offset <= self.selected
            - self.max_visible {
            self.scroll_offset = self.selected - self.max_visible + 1;
        }
    }

    /// Sets the height of the scrolling window: at least one row, at most
    /// the number of entries.
    pub fn set_max_visible(&mut self, max: usize)
        requires
            old(self).wf(),
        ensures
            final(self).wf(),
            final(self).items == old(self).items,
            final(self).selected == old(self).selected,
            final(self).max_visible == (if old(self).items@.len() == 0 {
                1int
            } else if max < 1 {
                1int
            } else if max > old(self).items@.len() {
                old(self).items@.len() as int
            } else {
                max as int
            }),
    {
        let mut m = if max < 1 {
            1
        } else {
            max
        };
        if self.items.len() == 0 {
            m = 1;
        } else if m > self.items.len() {
            m = self.items.len();
        }
        self.max_visible = m;
        self.adjust_scroll();
    }
}

/// One option of a dropdown: the label shown and the value it stands for.
#[derive(Clone)]
pub struct DropdownOption {
    pub label: String,
    pub value: String,
}

/// A labelled dropdown over a fixed option list.
pub struct Dropdown {
    pub label: String,
    pub options: Vec<DropdownOption>,
    pub selected: usize,
    pub open: bool,
}

impl Dropdown {
    /// The selection is in range.
    pub open spec fn wf(&self) -> bool {
        self.selected < self.options@.len()
    }

    pub fn new(label: String, options: Vec<DropdownOption>, selected: usize) -> (r: Dropdown)
        requires
            selected < options@.len(),
        ensures
            r.wf(),
            r.label == label,
            r.options == options,
            r.selected == selected,
            r.open == false,
    {
        Dropdown { label, options, selected, open: false }
    }

    /// The internal value of the selected option.
    pub fn value(&self) -> (r: &String)
        requires
            self.wf(),
        ensures
            r == &self.options@[self.selected as int].value,
    {
        &self.options[self.selected].value
    }

    /// The display label of the selected option.
    pub fn selected_label(&self) -> (r: &String)
        requires
            self.wf(),
        ensures
            r == &self.options@[self.selected as int].label,
    {
        &self.options[self.selected].label
    }

    pub fn is_open(&self) -> (r: bool)
        ensures
            r == self.open,
    {
        self.open
    }

    /// Selects by index; an index out of range changes nothing.
    pub fn set_selected(&mut self, idx: usize)
        requires
            old(self).wf(),
        ensures
            final(self).wf(),
            final(self).options == old(self).options,
            final(self).open == old(self).open,
            idx < old(self).options@.len() ==> final(self).selected == idx,
            idx >= old(self).options@.len() ==> final(self).selected == old(self).selected,
    {
        if idx < self.options.len() {
            self.selected = idx;
        }
    }

    /// Selects the first option whose value equals the given one; with no
    /// such option the selection stays.
    pub fn set_by_value(&mut self, value: &str)
        requires
            old(self).wf(),
        ensures
            final(self).wf(),
            final(self).options == old(self).options,
            final(self).open == old(self).open,
            (exists|i: int|
                0 <= i < old(self).options@.len() && (#[trigger] old(self).options@[i]).value@
                    == value@) ==> {
                &&& final(self).selected < old(self).options@.len()
                &&& old(self).options@[final(self).selected as int].value@ == value@
                &&& forall|j: int|
                    0 <= j < final(self).selected ==> (#[trigger] old(self).options@[j]).value@
                        != value@
            },
            (forall|i: int|
                0 <= i < old(self).options@.len() ==> (#[trigger] old(self).options@[i]).value@
                    != value@) ==> final(self).selected == old(self).selected,
    {
        let mut i: usize = 0;
        while i < self.options.len()
            invariant
                self == old(self),
                forall|j: int| 0 <= j < i ==> (#[trigger] self.options@[j]).value@ != value@,
            decreases self.options@.len() - i,
        {
            if str_eq(self.options[i].value.as_str(), value) {
                self.selected = i;
                return ;
            }
            i += 1;
        }
    }

    /// Opens or closes the option list.
    pub fn toggle_open(&mut self)
        ensures
            final(self).open == !old(self).open,
            final(self).options == old(self).options,
            final(self).selected == old(self).selected,
    {
        self.open = !self.open;
    }

    /// Moves the open selection up without wrapping.
    pub fn move_up(&mut self)
        requires
            old(self).wf(),
        ensures
            final(self).wf(),
            final(self).options == old(self).options,
            final(self).open == old(self).open,
            final(self).selected == (if old(self).selected > 0 {
                old(self).selected - 1
            } else {
                0
            }),
    {
        if self.selected > 0 {
            self.selected = self.selected - 1;
        }
    }

    /// Moves the open selection down without wrapping.
    pub fn move_down(&mut self)
        requires
            old(self).wf(),
        ensures
            final(self).wf(),
            final(self).options == old(self).options,
            final(self).open == old(self).open,
            final(self).selected == (if old(self).selected + 1 < old(self).options@.len() {
                old(self).selected + 1
            } else {
                old(self).selected as int
            }),
    {
        let n = self.options.len();
        if self.selected + 1 < n {
            self.selected = self.selected + 1;
        }
    }

    /// Closes the option list.
    pub fn close(&mut self)
        ensures
            final(self).open == false,
            final(self).options == old(self).options,
            final(self).selected == old(self).selected,
    {
        self.open = false;
    }
}

/// Compares two strings for equality.
fn str_eq(a: &str, b: &str) -> (r: bool)
    ensures
        r == (a@ == b@),
{
    let sa = a.to_owned();
    let sb = b.to_owned();
    sa == sb
}

/// What the progress display is doing.
#[derive(Debug, Clone, Copy, Eq, PartialEq, Structural)]
pub enum ProgressMode {
    Idle,
    Active,
}

/// Progress accounting of one long-running operation: total and written
/// bytes, and the message shown.
pub struct ProgressBar {
    pub mode: ProgressMode,
    pub total_bytes: u64,
    pub written_bytes: u64,
    pub message: String,
}

impl ProgressBar {
    /// The written count never exceeds the total.
    pub open spec fn wf(&self) -> bool {
        self.written_bytes <= self.total_bytes || self.mode == ProgressMode::Idle
    }

    pub fn new() -> (r: ProgressBar)
        ensures
            r.mode == ProgressMode::Idle,
            r.total_bytes == 0,
            r.written_bytes == 0,
            r.message@ == "No active operation"@,
            r.wf(),
    {
        ProgressBar {
            mode: ProgressMode::Idle,
            total_bytes: 0,
            written_bytes: 0,
            message: "No active operation".to_owned(),
        }
    }

    /// Starts an operation: progress resets and the bar becomes active.
    pub fn start(&mut self, total_bytes: u64, message: String)
        ensures
            final(self).wf(),
            final(self).mode == ProgressMode::Active,
            final(self).total_bytes == total_bytes,
            final(self).written_bytes == 0,
            final(self).message == message,
    {
        self.mode = ProgressMode::Active;
        self.total_bytes = total_bytes;
        self.written_bytes = 0;
        self.message = message;
    }

    /// Updates the written count while active, clamped to the total; an
    /// idle bar ignores the update.
    pub fn set_written(&mut self, bytes: u64)
        requires
            old(self).wf(),
        ensures
            final(self).wf(),
            final(self).mode == old(self).mode,
            final(self).total_bytes == old(self).total_bytes,
            final(self).message == old(self).message,
            old(self).mode == ProgressMode::Active ==> final(self).written_bytes == (if bytes
                <= old(self).total_bytes {
                bytes as int
            } else {
                old(self).total_bytes as int
            }),
            old(self).mode == ProgressMode::Idle ==> final(self).written_bytes == old(
                self,
            ).written_bytes,
    {
        if self.mode == ProgressMode::Active {
            self.written_bytes = if bytes <= self.total_bytes {
                bytes
            } else {
                self.total_bytes
            };
        }
    }

    /// Updates the message while active; an idle bar ignores it.
    pub fn set_message(&mut self, message: String)
        ensures
            final(self).mode == old(self).mode,
            final(self).total_bytes == old(self).total_bytes,
            final(self).written_bytes == old(self).written_bytes,
            old(self).mode == ProgressMode::Active ==> final(self).message == message,
            old(self).mode == ProgressMode::Idle ==> final(self).message == old(self).message,
    {
        if self.mode == ProgressMode::Active {
            self.message = message;
        }
    }

    /// Ends the operation: the bar returns to idle with cleared counters.
    pub fn finish(&mut self)
        ensures
            final(self).wf(),
            final(self).mode == ProgressMode::Idle,
            final(self).total_bytes == 0,
            final(self).written_bytes == 0,
            final(self).message@ == "No active operation"@,
    {
        self.mode = ProgressMode::Idle;
        self.total_bytes = 0;
        self.written_bytes = 0;
        self.message = "No active operation".to_owned();
    }
}

impl DescriptionMenu {
    /// Greedily wraps a description into lines of at most `max_width`
    /// characters, breaking at spaces; a word longer than the width gets a
    /// line of its own. Every returned line holds at least one word.
    pub fn wrap_text(s: &str, max_width: usize) -> (r: Vec<String>)
        ensures
            forall|i: int| 0 <= i < r@.len() ==> (#[trigger] r@[i])@.len() > 0,
    {
        let n = s.unicode_len();
        let mut lines: Vec<String> = Vec::new();
        let mut current = String::new();
        let mut word = String::new();
        let mut i: usize = 0;
        while i < n
            invariant
                n == s@.len(),
                i <= n,
                forall|k: int| 0 <= k < lines@.len() ==> (#[trigger] lines@[k])@.len() > 0,
            decreases n - i,
        {
            let boundary = {
                let c = s.get_char(i);
                c == ' ' || c == '\t' || c == '\n' || c == '\r'
            };
            if boundary {
                if word.as_str().unicode_len() > 0 {
                    let cur_len = current.as_str().unicode_len();
                    let word_len = word.as_str().unicode_len();
                    let over = if word_len >= max_width {
                        true
                    } else {
                        cur_len > max_width - word_len - 1
                    };
                    if cur_len > 0 && over {
                        lines.push(current);
                        current = String::new();
                    }
                    if current.as_str().unicode_len() > 0 {
                        current.append(" ");
                    }
                    current.append(word.as_str());
                    word = String::new();
                }
            } else {
                let c = s.get_char(i);
                push_char(&mut word, c);
            }
            i += 1;
        }
        if word.as_str().unicode_len() > 0 {
            let cur_len = current.as_str().unicode_len();
            let word_len = word.as_str().unicode_len();
            let over = if word_len >= max_width {
                true
            } else {
                cur_len > max_width - word_len - 1
            };
            if cur_len > 0 && over {
                lines.push(current);
                current = String::new();
            }
            if current.as_str().unicode_len() > 0 {
                current.append(" ");
            }
            current.append(word.as_str());
        }
        if current.as_str().unicode_len() > 0 {
            lines.push(current);
        }
        lines
    }
}

/// Appends one character to a text.
fn push_char(out: &mut String, c: char)
    ensures
        final(out)@ == old(out)@.push(c),
{
    let mut one: Vec<char> = Vec::new();
    one.push(c);
    let mut bytes: Vec<u8> = Vec::new();
    char_to_utf8(&mut bytes, c);
    proof {
        vstd::utf8::encode_utf8_valid_utf8(seq![c]);
        vstd::utf8::encode_utf8_decode_utf8(seq![c]);
    }
    match crate::error::utf8_to_string(bytes.as_slice()) {
        Some(s) => {
            out.append(s.as_str());
            proof {
                assert(out@ =~= old(out)@.push(c));
            }
        },
        None => {
            proof {
                assert(false);
            }
        },
    }
}

/// Relies on char::encode_utf8 of std: the appended bytes are the UTF-8
/// encoding of the character.
#[verifier::external_body]
fn char_to_utf8(out: &mut Vec<u8>, c: char)
    ensures
        final(out)@ == old(out)@ + vstd::utf8::encode_utf8(seq![c]),
{
    let mut buf = [0u8; 4];
    let s = c.encode_utf8(&mut buf);
    out.extend_from_slice(s.as_bytes());
}

} // verus!
