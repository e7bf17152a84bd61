//! The input composer: an editable line with a byte cursor and a message history.

use vstd::prelude::*;
use vstd::utf8::{encode_utf8, is_char_boundary};
use vstd::string::StringExecFns;
use crate::strs::{utf8_bytes, bytes_with_insert, bytes_with_remove, decimal, string_insert, string_remove, usize_to_string, byte_len};

verus! {

/// State for the input composer
#[derive(Debug, Clone, Default)]
pub struct InputState {
    /// Current input buffer
    pub buffer: String,
    /// Cursor position, a byte offset into `buffer`
    pub cursor: usize,
    /// Message history for navigation
    pub message_history: Vec<String>,
    /// Current position in history (None = new message)
    pub history_index: Option<usize>,
    /// Temporary buffer for new message while navigating history
    pub temp_buffer: Option<String>,
    /// Whether we're in "fork mode" (editing and replacing history entry)
    pub is_fork_mode: bool,
    /// Fork point index (when forking from a specific point in history)
    pub fork_point_index: Option<usize>,
}

/// The history index that `navigate_up` moves to.
pub open spec fn up_index(index: Option<usize>, len: nat) -> int {
    match index {
        None => if len >= 1 { len - 1 } else { 0 },
        Some(i) => if i >= 1 { i - 1 } else { 0 },
    }
}

/// What `navigate_up` does: older history entries come into the line, the
/// line being typed is kept aside the first time.
pub open spec fn navigated_up(old: InputState, new: InputState) -> bool {
    let h = old.message_history@;
    let ni = up_index(old.history_index, h.len());
    if h.len() == 0 {
        new == old
    } else {
        &&& new.same_except_navigation(&old)
        &&& new.temp_buffer == if old.history_index.is_none() && old.buffer@.len() > 0 {
            Some(old.buffer)
        } else {
            old.temp_buffer
        }
        &&& if ni < h.len() {
            &&& new.buffer == h[ni]
            &&& new.cursor == new.bytes().len()
            &&& new.history_index == Some(ni as usize)
        } else {
            &&& new.buffer == old.buffer
            &&& new.cursor == old.cursor
            &&& new.history_index == old.history_index
        }
    }
}

/// What `navigate_down` does: newer entries come into the line, and past the
/// newest one the line kept aside comes back (or an empty line).
pub open spec fn navigated_down(old: InputState, new: InputState) -> bool {
    let h = old.message_history@;
    match old.history_index {
        None => new == old,
        Some(i) => if h.len() == 0 {
            new == old
        } else {
            &&& new.same_except_navigation(&old)
            &&& new.cursor == new.bytes().len()
            &&& if i + 1 >= h.len() {
                &&& new.buffer@ == match old.temp_buffer {
                    Some(t) => t@,
                    None => Seq::<char>::empty(),
                }
                &&& new.history_index.is_none()
                &&& new.temp_buffer.is_none()
            } else {
                &&& new.buffer == h[i + 1]
                &&& new.history_index == Some((i + 1) as usize)
                &&& new.temp_buffer == old.temp_buffer
            }
        },
    }
}

impl InputState {
    /// The buffer's UTF-8 bytes; `cursor` indexes into these.
    pub open spec fn bytes(&self) -> Seq<u8> {
        utf8_bytes(self.buffer@)
    }

    /// The history as character sequences.
    pub open spec fn history(&self) -> Seq<Seq<char>> {
        self.message_history@.map_values(|m: String| m@)
    }

    /// Everything but the edit line (buffer and cursor) is as in `other`.
    pub open spec fn same_except_line(&self, other: &Self) -> bool {
        &&& self.message_history@ == other.message_history@
        &&& self.history_index == other.history_index
        &&& self.temp_buffer == other.temp_buffer
        &&& self.is_fork_mode == other.is_fork_mode
        &&& self.fork_point_index == other.fork_point_index
    }

    /// Everything but the history navigation (buffer, cursor, index, temp) is as in `other`.
    pub open spec fn same_except_navigation(&self, other: &Self) -> bool {
        &&& self.message_history@ == other.message_history@
        &&& self.is_fork_mode == other.is_fork_mode
        &&& self.fork_point_index == other.fork_point_index
    }

    pub fn new() -> (s: Self)
        ensures
            s.buffer@.len() == 0,
            s.cursor == 0,
            s.message_history@.len() == 0,
            s.history_index.is_none(),
            s.temp_buffer.is_none(),
            !s.is_fork_mode,
            s.fork_point_index.is_none(),
    {
        InputState {
            buffer: String::new(),
            cursor: 0,
            message_history: Vec::new(),
            history_index: None,
            temp_buffer: None,
            is_fork_mode: false,
            fork_point_index: None,
        }
    }

    /// Inserts `c` at the cursor and moves the cursor one byte right.
    pub fn insert_char(&mut self, c: char)
        requires
            is_char_boundary(old(self).bytes(), old(self).cursor as int),
            old(self).cursor < usize::MAX,
        ensures
            final(self).bytes() == bytes_with_insert(old(self).bytes(), old(self).cursor as int, c),
            final(self).cursor == old(self).cursor + 1,
            final(self).same_except_line(old(self)),
    {
        string_insert(&mut self.buffer, self.cursor, c);
        self.cursor = self.cursor + 1;
    }

    /// Removes the char before the cursor: the cursor steps back one byte and the
    /// char that starts there is removed.
    pub fn backspace(&mut self)
        requires
            old(self).cursor > 0 && old(self).buffer@.len() > 0 ==> {
                &&& is_char_boundary(old(self).bytes(), old(self).cursor - 1)
                &&& old(self).cursor - 1 < old(self).bytes().len()
            },
        ensures
            final(self).same_except_line(old(self)),
            if old(self).cursor > 0 && old(self).buffer@.len() > 0 {
                &&& final(self).cursor == old(self).cursor - 1
                &&& final(self).bytes() == bytes_with_remove(old(self).bytes(), old(self).cursor - 1)
            } else {
                &&& final(self).cursor == old(self).cursor
                &&& final(self).buffer@ == old(self).buffer@
            },
    {
        if self.cursor > 0 && !self.buffer.as_str().is_empty() {
            self.cursor = self.cursor - 1;
            let _ = string_remove(&mut self.buffer, self.cursor);
        }
    }

    /// Removes the char at the cursor, if the cursor is before the end.
    pub fn delete(&mut self)
        requires
            old(self).cursor < old(self).bytes().len() ==> is_char_boundary(old(self).bytes(), old(self).cursor as int),
        ensures
            final(self).same_except_line(old(self)),
            final(self).cursor == old(self).cursor,
            if old(self).cursor < old(self).bytes().len() {
                final(self).bytes() == bytes_with_remove(old(self).bytes(), old(self).cursor as int)
            } else {
                final(self).buffer@ == old(self).buffer@
            },
    {
        if self.cursor < byte_len(&self.buffer) {
            let _ = string_remove(&mut self.buffer, self.cursor);
        }
    }

    pub fn move_left(&mut self)
        ensures
            final(self).same_except_line(old(self)),
            final(self).buffer@ == old(self).buffer@,
            final(self).cursor == if old(self).cursor > 0 { old(self).cursor - 1 } else { 0 },
    {
        if self.cursor > 0 {
            self.cursor = self.cursor - 1;
        }
    }

    pub fn move_right(&mut self)
        ensures
            final(self).same_except_line(old(self)),
            final(self).buffer@ == old(self).buffer@,
            final(self).cursor == if old(self).cursor < old(self).bytes().len() { old(self).cursor + 1 } else { old(self).cursor as int },
    {
        if self.cursor < byte_len(&self.buffer) {
            self.cursor = self.cursor + 1;
        }
    }

    pub fn move_home(&mut self)
        ensures
            final(self).same_except_line(old(self)),
            final(self).buffer@ == old(self).buffer@,
            final(self).cursor == 0,
    {
        self.cursor = 0;
    }

    pub fn move_end(&mut self)
        ensures
            final(self).same_except_line(old(self)),
            final(self).buffer@ == old(self).buffer@,
            final(self).cursor == old(self).bytes().len(),
    {
        self.cursor = byte_len(&self.buffer);
    }

    pub fn clear(&mut self)
        ensures
            final(self).same_except_line(old(self)),
            final(self).buffer@.len() == 0,
            final(self).cursor == 0,
    {
        self.buffer = String::new();
        self.cursor = 0;
    }

    /// Hands out the buffer and leaves an empty line behind.
    pub fn take(&mut self) -> (taken: String)
        ensures
            taken@ == old(self).buffer@,
            final(self).same_except_line(old(self)),
            final(self).buffer@.len() == 0,
            final(self).cursor == 0,
    {
        let mut out = String::new();
        std::mem::swap(&mut self.buffer, &mut out);
        self.cursor = 0;
        out
    }

    /// Add a message to history (typically called after sending a message).
    /// A message equal to the last entry is not added again.
    pub fn add_to_history(&mut self, message: String)
        ensures
            if old(self).message_history@.len() > 0 && old(self).message_history@.last()@ == message@ {
                *final(self) == *old(self)
            } else {
                &&& final(self).message_history@ == old(self).message_history@.push(message)
                &&& final(self).history_index.is_none()
                &&& final(self).temp_buffer.is_none()
                &&& final(self).buffer == old(self).buffer
                &&& final(self).cursor == old(self).cursor
                &&& final(self).is_fork_mode == old(self).is_fork_mode
                &&& final(self).fork_point_index == old(self).fork_point_index
            },
    {
        let n = self.message_history.len();
        if n > 0 {
            if self.message_history[n - 1] == message {
                return;
            }
        }
        self.message_history.push(message);
        self.reset_history_navigation();
    }

    /// Navigate up in history (older messages). The line being typed is kept
    /// aside the first time.
    pub fn navigate_up(&mut self)
        ensures
            navigated_up(*old(self), *final(self)),
    {
        let n = self.message_history.len();
        if n == 0 {
            return;
        }
        if self.history_index.is_none() && !self.buffer.as_str().is_empty() {
            self.temp_buffer = Some(self.buffer.clone());
        }
        let new_index = match self.history_index {
            None => n - 1,
            Some(idx) => idx.saturating_sub(1),
        };
        if new_index < n {
            self.buffer = self.message_history[new_index].clone();
            self.cursor = byte_len(&self.buffer);
            self.history_index = Some(new_index);
        }
    }

    /// Navigate down in history (newer messages). Past the newest entry the
    /// line kept aside comes back (or an empty line).
    pub fn navigate_down(&mut self)
        ensures
            navigated_down(*old(self), *final(self)),
    {
        let n = self.message_history.len();
        if n == 0 {
            return;
        }
        match self.history_index {
            None => {},
            Some(idx) => {
                if idx >= n - 1 {
                    let kept = self.temp_buffer.take();
                    self.buffer = match kept {
                        Some(t) => t,
                        None => String::new(),
                    };
                    self.cursor = byte_len(&self.buffer);
                    self.history_index = None;
                } else {
                    let new_index = idx + 1;
                    self.buffer = self.message_history[new_index].clone();
                    self.cursor = byte_len(&self.buffer);
                    self.history_index = Some(new_index);
                }
            },
        }
    }

    /// Reset history navigation state (called when user starts typing new message)
    pub fn reset_history_navigation(&mut self)
        ensures
            final(self).history_index.is_none(),
            final(self).temp_buffer.is_none(),
            final(self).buffer == old(self).buffer,
            final(self).cursor == old(self).cursor,
            final(self).same_except_navigation(old(self)),
    {
        self.history_index = None;
        self.temp_buffer = None;
    }

    /// Check if currently navigating history
    pub fn is_navigating_history(&self) -> (b: bool)
        ensures
            b == self.history_index.is_some(),
    {
        self.history_index.is_some()
    }

    /// Position indicator for the UI, "n/total" with n counted from 1.
    pub fn history_position(&self) -> (r: Option<String>)
        requires
            self.history_index.is_some() ==> self.history_index.unwrap() < usize::MAX,
        ensures
            match self.history_index {
                None => r.is_none(),
                Some(i) => r.is_some() && r.unwrap()@ == decimal((i + 1) as nat) + seq!['/'] + decimal(self.message_history@.len()),
            },
    {
        match self.history_index {
            None => None,
            Some(idx) => {
                let total = self.message_history.len();
                let mut s = usize_to_string(idx + 1);
                let t = usize_to_string(total);
                proof {
                    reveal_strlit("/");
                }
                s.append("/");
                s.append(t.as_str());
                Some(s)
            },
        }
    }

    /// Enter fork mode at the current history index
    ///
    /// This marks that we're editing history and will replace the entry
    /// instead of appending a new one.
    pub fn enter_fork_mode(&mut self)
        ensures
            final(self).buffer == old(self).buffer,
            final(self).cursor == old(self).cursor,
            final(self).message_history@ == old(self).message_history@,
            final(self).history_index == old(self).history_index,
            final(self).temp_buffer == old(self).temp_buffer,
            match old(self).history_index {
                Some(i) => final(self).is_fork_mode && final(self).fork_point_index == Some(i),
                None => final(self).is_fork_mode == old(self).is_fork_mode
                    && final(self).fork_point_index == old(self).fork_point_index,
            },
    {
        if let Some(idx) = self.history_index {
            self.is_fork_mode = true;
            self.fork_point_index = Some(idx);
        }
    }

    /// Exit fork mode (return to normal message input)
    pub fn exit_fork_mode(&mut self)
        ensures
            final(self).buffer == old(self).buffer,
            final(self).cursor == old(self).cursor,
            final(self).message_history@ == old(self).message_history@,
            final(self).history_index == old(self).history_index,
            final(self).temp_buffer == old(self).temp_buffer,
            !final(self).is_fork_mode,
            final(self).fork_point_index.is_none(),
    {
        self.is_fork_mode = false;
        self.fork_point_index = None;
    }

    /// Check if currently in fork mode
    pub fn is_in_fork_mode(&self) -> (b: bool)
        ensures
            b == self.is_fork_mode,
    {
        self.is_fork_mode
    }

    /// Replace a history message at the given index
    ///
    /// Returns the old message that was replaced.
    pub fn replace_history_entry(&mut self, index: usize, new_message: String) -> (r: Option<String>)
        ensures
            final(self).buffer == old(self).buffer,
            final(self).cursor == old(self).cursor,
            final(self).history_index == old(self).history_index,
            final(self).temp_buffer == old(self).temp_buffer,
            final(self).is_fork_mode == old(self).is_fork_mode,
            final(self).fork_point_index == old(self).fork_point_index,
            if index < old(self).message_history@.len() {
                &&& r == Some(old(self).message_history@[index as int])
                &&& final(self).message_history@ == old(self).message_history@.update(index as int, new_message)
            } else {
                &&& r.is_none()
                &&& final(self).message_history@ == old(self).message_history@
            },
    {
        if index < self.message_history.len() {
            let old_entry = self.message_history[index].clone();
            self.message_history.set(index, new_message);
            Some(old_entry)
        } else {
            None
        }
    }

    /// Truncate history at the given index (removes all entries after it)
    ///
    /// This is used when "forking" from a previous point - all messages
    /// after the fork point are discarded.
    pub fn truncate_history_from(&mut self, index: usize)
        ensures
            final(self).buffer == old(self).buffer,
            final(self).cursor == old(self).cursor,
            final(self).history_index == old(self).history_index,
            final(self).temp_buffer == old(self).temp_buffer,
            final(self).is_fork_mode == old(self).is_fork_mode,
            final(self).fork_point_index == old(self).fork_point_index,
            final(self).message_history@ == if index < old(self).message_history@.len() {
                old(self).message_history@.take(index + 1)
            } else {
                old(self).message_history@
            },
    {
        if index < self.message_history.len() {
            self.message_history.truncate(index + 1);
        }
    }

    /// Take the current buffer and update history if in fork mode
    ///
    /// Returns the message that was taken.
    pub fn take_with_history_update(&mut self) -> (taken: String)
        ensures
            taken@ == old(self).buffer@,
            final(self).buffer@.len() == 0,
            final(self).cursor == 0,
            final(self).history_index == old(self).history_index,
            final(self).temp_buffer == old(self).temp_buffer,
            if old(self).is_fork_mode {
                &&& !final(self).is_fork_mode
                &&& final(self).fork_point_index.is_none()
                &&& final(self).history() == match old(self).fork_point_index {
                        Some(i) => if i < old(self).message_history@.len() {
                            old(self).history().update(i as int, old(self).buffer@)
                        } else {
                            old(self).history()
                        },
                        None => old(self).history(),
                    }
            } else {
                &&& final(self).is_fork_mode == old(self).is_fork_mode
                &&& final(self).fork_point_index == old(self).fork_point_index
                &&& final(self).message_history@ == old(self).message_history@
            },
    {
        let buffer = self.take();
        if self.is_fork_mode {
            if let Some(idx) = self.fork_point_index {
                let _ = self.replace_history_entry(idx, buffer.clone());
                proof {
                    if idx < old(self).message_history@.len() {
                        assert(self.history() =~= old(self).history().update(idx as int, old(self).buffer@));
                    }
                }
            }
            self.exit_fork_mode();
        }
        buffer
    }
}

} // verus!
