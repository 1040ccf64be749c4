//! The message-input editor and the message-list scroll position of the
//! chat client, as abstract states with their transitions.

use vstd::prelude::*;

verus! {

/// The input line: its characters and the cursor, counted in characters.
pub struct InputView {
    pub text: Seq<char>,
    pub cursor: nat,
}

/// An editing key applied to the input line.
pub enum EditOp {
    /// Insert a character before the cursor and move past it.
    Insert(char),
    /// Delete the character before the cursor.
    Delete,
    /// Delete the character under the cursor.
    DeleteForward,
    Left,
    Right,
    /// Up one wrapped line of the given width.
    Up(nat),
    /// Down one wrapped line of the given width.
    Down(nat),
    Start,
    End,
}

impl InputView {
    /// The cursor lies within the text (possibly just past its end).
    pub open spec fn cursor_in_text(self) -> bool {
        self.cursor <= self.text.len()
    }

    /// Where an insertion at the cursor lands: the cursor, or the end of the
    /// text when the cursor lies beyond it.
    pub open spec fn insertion_point(self) -> nat {
        if self.cursor <= self.text.len() {
            self.cursor
        } else {
            self.text.len()
        }
    }

    /// The input line after an editing key.
    pub open spec fn apply(self, op: EditOp) -> InputView {
        let len = self.text.len();
        match op {
            EditOp::Insert(c) => InputView {
                text: self.text.insert(self.insertion_point() as int, c),
                cursor: self.cursor + 1,
            },
            EditOp::Delete => if self.cursor > 0 {
                InputView { text: self.text.remove(self.cursor - 1), cursor: (self.cursor - 1) as nat }
            } else {
                self
            },
            EditOp::DeleteForward => if self.cursor < len {
                InputView { text: self.text.remove(self.cursor as int), cursor: self.cursor }
            } else {
                self
            },
            EditOp::Left => if self.cursor > 0 {
                InputView { text: self.text, cursor: (self.cursor - 1) as nat }
            } else {
                self
            },
            EditOp::Right => if self.cursor < len {
                InputView { text: self.text, cursor: self.cursor + 1 }
            } else {
                self
            },
            EditOp::Up(width) => if width > 0 && self.cursor >= width {
                InputView { text: self.text, cursor: (self.cursor - width) as nat }
            } else {
                self
            },
            EditOp::Down(width) => if width > 0 {
                InputView {
                    text: self.text,
                    cursor: if self.cursor + width <= len { self.cursor + width } else { len },
                }
            } else {
                self
            },
            EditOp::Start => InputView { text: self.text, cursor: 0 },
            EditOp::End => InputView { text: self.text, cursor: len },
        }
    }

    /// An editing key can be applied: deleting backwards needs the character
    /// before the cursor to exist.
    pub open spec fn can_apply(self, op: EditOp) -> bool {
        match op {
            EditOp::Delete => self.cursor <= self.text.len(),
            _ => true,
        }
    }
}

/// Law: no editing key moves the cursor out of the text.
pub proof fn editing_keeps_cursor_in_text(v: InputView, op: EditOp)
    requires
        v.cursor_in_text(),
    ensures
        v.apply(op).cursor_in_text(),
{
}

/// Law: deleting backwards right after inserting a character gives the
/// input line back.
pub proof fn delete_undoes_insert(v: InputView, c: char)
    requires
        v.cursor_in_text(),
    ensures
        v.apply(EditOp::Insert(c)).apply(EditOp::Delete) == v,
{
    let after = v.apply(EditOp::Insert(c));
    assert(after.text.remove(v.cursor as int) =~= v.text);
}

/// Law: moving right and then left returns the cursor where it was, when
/// there was a character to move over.
pub proof fn right_then_left(v: InputView)
    requires
        v.cursor < v.text.len(),
    ensures
        v.apply(EditOp::Right).apply(EditOp::Left) == v,
{
}

/// The message list: how many messages there are, which one is selected,
/// and whether new messages keep the selection at the bottom.
pub struct ScrollView {
    pub count: nat,
    pub scroll: nat,
    pub auto_scroll: bool,
}

/// A change of the message list.
pub enum ScrollOp {
    /// A message is appended.
    Append,
    Up,
    Down,
    Top,
    Bottom,
}

/// The index of the last message (0 for an empty list).
pub open spec fn last_index(count: nat) -> nat {
    if count > 0 {
        (count - 1) as nat
    } else {
        0
    }
}

impl ScrollView {
    /// The selection lies on a message (or on 0 for an empty list).
    pub open spec fn selection_in_list(self) -> bool {
        self.scroll <= last_index(self.count)
    }

    /// The message list after a change.
    pub open spec fn apply(self, op: ScrollOp) -> ScrollView {
        match op {
            ScrollOp::Append => ScrollView {
                count: self.count + 1,
                scroll: if self.auto_scroll { self.count } else { self.scroll },
                auto_scroll: self.auto_scroll,
            },
            ScrollOp::Up => if self.scroll > 0 {
                ScrollView { count: self.count, scroll: (self.scroll - 1) as nat, auto_scroll: false }
            } else {
                self
            },
            ScrollOp::Down => if self.scroll < last_index(self.count) {
                ScrollView {
                    count: self.count,
                    scroll: self.scroll + 1,
                    auto_scroll: self.scroll + 1 >= last_index(self.count) || self.auto_scroll,
                }
            } else {
                self
            },
            ScrollOp::Top => ScrollView { count: self.count, scroll: 0, auto_scroll: false },
            ScrollOp::Bottom => ScrollView {
                count: self.count,
                scroll: last_index(self.count),
                auto_scroll: true,
            },
        }
    }
}

/// Law: no change of the message list moves the selection off the list.
pub proof fn scrolling_keeps_selection_in_list(v: ScrollView, op: ScrollOp)
    requires
        v.selection_in_list(),
    ensures
        v.apply(op).selection_in_list(),
{
}

/// Law: while auto-scroll is on, every new message is selected, so the view
/// follows the bottom of the list.
pub proof fn auto_scroll_follows_new_messages(v: ScrollView)
    requires
        v.auto_scroll,
    ensures
        v.apply(ScrollOp::Append).scroll == last_index(v.apply(ScrollOp::Append).count),
        v.apply(ScrollOp::Append).auto_scroll,
{
}

/// Law: scrolling down to the last message turns auto-scroll back on, as
/// jumping to the bottom does.
pub proof fn reaching_bottom_restores_auto_scroll(v: ScrollView)
    requires
        v.scroll + 1 == last_index(v.count),
    ensures
        v.apply(ScrollOp::Down).auto_scroll,
        v.apply(ScrollOp::Bottom).auto_scroll,
{
}

/// Law: scrolling down and then up returns to the same message.
pub proof fn down_then_up(v: ScrollView)
    requires
        v.scroll < last_index(v.count),
    ensures
        v.apply(ScrollOp::Down).apply(ScrollOp::Up).scroll == v.scroll,
{
}

} // verus!
