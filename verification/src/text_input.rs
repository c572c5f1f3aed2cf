//! A single-line text editor with a cursor.
use vstd::prelude::*;

use crate::key::{Key, KeyCode};
use crate::text::{chars_of, is_whitespace, is_whitespace_spec, push_char, push_chars, string_from_chars};

verus! {

/// What a key press did to a [`TextInput`].
#[derive(Debug, Clone, PartialEq, Eq)]
pub enum TextInputEvent {
    /// Enter: the current value.
    Submitted(String),
    /// Esc: the value was cleared.
    Cancelled,
    /// An editing or cursor key was handled.
    Changed,
    /// The key means nothing to the input.
    Ignored,
}

/// An editable line of text with a cursor, counted in characters.
pub struct TextInput {
    value: String,
    cursor: usize,
}

/// Index of the last `k < end` whose white-space-ness is `ws`, or -1.
pub open spec fn rfind_ws(v: Seq<char>, end: int, ws: bool) -> int
    decreases end,
{
    if end <= 0 {
        -1
    } else if is_whitespace_spec(v[end - 1]) == ws {
        end - 1
    } else {
        rfind_ws(v, end - 1, ws)
    }
}

/// Where Ctrl-W starts deleting: just after the white space that precedes the word before
/// `cursor` (trailing white space before the cursor goes with the word), or 0.
pub open spec fn word_start(v: Seq<char>, cursor: int) -> int {
    let i = rfind_ws(v, cursor, false);
    if i < 0 {
        0
    } else {
        rfind_ws(v, i, true) + 1
    }
}

/// Whether the white space that ends the kept text in a Ctrl-W is wider than one byte in UTF-8.
/// Deleting the word then cuts that character in two, which the editor refuses (it panics).
pub open spec fn word_delete_splits_char(v: Seq<char>, cursor: int) -> bool {
    let i = rfind_ws(v, cursor, false);
    i >= 0 && rfind_ws(v, i, true) >= 0 && v[rfind_ws(v, i, true)] as u32 >= 0x80
}

/// Whether the editor can take `key` in the state (`v`, `cursor`): a Ctrl-W must not split a
/// character, and the text must have room for one more character.
pub open spec fn key_allowed(v: Seq<char>, cursor: int, key: Key) -> bool {
    &&& (key.ctrl && key.code == KeyCode::Char('w')) ==> !word_delete_splits_char(v, cursor)
    &&& v.len() < usize::MAX
}

/// The text and cursor after `key`.
pub open spec fn edit(v: Seq<char>, c: int, key: Key) -> (Seq<char>, int) {
    match key.code {
        KeyCode::Esc => (Seq::empty(), 0),
        KeyCode::Enter => (v, c),
        KeyCode::Backspace => if c > 0 {
            (v.subrange(0, c - 1) + v.subrange(c, v.len() as int), c - 1)
        } else {
            (v, c)
        },
        KeyCode::Delete => if c < v.len() {
            (v.subrange(0, c) + v.subrange(c + 1, v.len() as int), c)
        } else {
            (v, c)
        },
        KeyCode::Left => if c > 0 {
            (v, c - 1)
        } else {
            (v, c)
        },
        KeyCode::Right => if c < v.len() {
            (v, c + 1)
        } else {
            (v, c)
        },
        KeyCode::Char(ch) => if key.ctrl && ch == 'a' {
            (v, 0)
        } else if key.ctrl && ch == 'e' {
            (v, v.len() as int)
        } else if key.ctrl && ch == 'w' {
            (v.subrange(0, word_start(v, c)) + v.subrange(c, v.len() as int), word_start(v, c))
        } else if key.ctrl && ch == 'u' {
            (v.subrange(c, v.len() as int), 0)
        } else if key.ctrl && ch == 'k' {
            (v.subrange(0, c), c)
        } else {
            (v.subrange(0, c).push(ch) + v.subrange(c, v.len() as int), c + 1)
        },
        _ => (v, c),
    }
}

/// Whether `e` is the event reported for `key` on the text `v`.
pub open spec fn event_matches(e: TextInputEvent, v: Seq<char>, key: Key) -> bool {
    match key.code {
        KeyCode::Esc => e == TextInputEvent::Cancelled,
        KeyCode::Enter => e matches TextInputEvent::Submitted(s) && s@ == v,
        KeyCode::Backspace | KeyCode::Delete | KeyCode::Left | KeyCode::Right | KeyCode::Char(_) =>
            e == TextInputEvent::Changed,
        _ => e == TextInputEvent::Ignored,
    }
}

proof fn lemma_rfind_bounds(v: Seq<char>, end: int, ws: bool)
    requires
        0 <= end <= v.len(),
    ensures
        -1 <= rfind_ws(v, end, ws) < end,
        rfind_ws(v, end, ws) >= 0 ==> is_whitespace_spec(v[rfind_ws(v, end, ws)]) == ws,
    decreases end,
{
    if end > 0 && is_whitespace_spec(v[end - 1]) != ws {
        lemma_rfind_bounds(v, end - 1, ws);
    }
}

/// Proves `0 <= word_start(v, c) <= c`.
pub proof fn lemma_word_start_bounds(v: Seq<char>, c: int)
    requires
        0 <= c <= v.len(),
    ensures
        0 <= word_start(v, c) <= c,
{
    lemma_rfind_bounds(v, c, false);
    let i = rfind_ws(v, c, false);
    if i >= 0 {
        lemma_rfind_bounds(v, i, true);
    }
}

/// Index of the last `k < end` whose white-space-ness is `ws`, if any.
fn rfind_ws_exec(v: &Vec<char>, end: usize, ws: bool) -> (r: Option<usize>)
    requires
        end <= v@.len(),
    ensures
        match r {
            Some(k) => k == rfind_ws(v@, end as int, ws),
            None => rfind_ws(v@, end as int, ws) == -1,
        },
{
    let mut e: usize = end;
    while e > 0 && is_whitespace(v[e - 1]) != ws
        invariant
            e <= end <= v@.len(),
            rfind_ws(v@, end as int, ws) == rfind_ws(v@, e as int, ws),
        decreases e,
    {
        e -= 1;
    }
    if e == 0 {
        None
    } else {
        Some(e - 1)
    }
}

/// `v[0..a] ++ ins ++ v[b..]` as a string.
fn splice(v: &Vec<char>, a: usize, b: usize, ins: Option<char>) -> (s: String)
    requires
        a <= b <= v@.len(),
    ensures
        s@ == match ins {
            Some(ch) => v@.subrange(0, a as int).push(ch) + v@.subrange(b as int, v@.len() as int),
            None => v@.subrange(0, a as int) + v@.subrange(b as int, v@.len() as int),
        },
{
    let mut s = string_from_chars(v, 0, a);
    if let Some(ch) = ins {
        push_char(&mut s, ch);
    }
    push_chars(&mut s, v, b, v.len());
    s
}

impl Default for TextInput {
    /// An empty input.
    fn default() -> (t: TextInput)
        ensures
            t.text() == Seq::<char>::empty(),
            t.cursor_pos() == 0,
    {
        TextInput::empty()
    }
}

impl TextInput {
    #[verifier::type_invariant]
    spec fn cursor_in_text(self) -> bool {
        self.cursor <= self.value@.len()
    }

    /// The text being edited.
    pub closed spec fn text(self) -> Seq<char> {
        self.value@
    }

    /// The cursor: the number of characters before it.
    pub closed spec fn cursor_pos(self) -> int {
        self.cursor as int
    }

    /// An input holding `initial`, with the cursor at its end.
    pub fn new(initial: String) -> (t: TextInput)
        ensures
            t.text() == initial@,
            t.cursor_pos() == initial@.len(),
    {
        let n = chars_of(initial.as_str()).len();
        TextInput { value: initial, cursor: n }
    }

    /// An empty input.
    pub fn empty() -> (t: TextInput)
        ensures
            t.text() == Seq::<char>::empty(),
            t.cursor_pos() == 0,
    {
        TextInput { value: String::new(), cursor: 0 }
    }

    /// Applies one key press: editing keys change the text, cursor keys move the cursor,
    /// Enter submits the text and Esc clears it.
    pub fn handle_key(&mut self, key: &Key) -> (e: TextInputEvent)
        requires
            key_allowed(old(self).text(), old(self).cursor_pos(), *key),
        ensures
            final(self).text() == edit(old(self).text(), old(self).cursor_pos(), *key).0,
            final(self).cursor_pos() == edit(old(self).text(), old(self).cursor_pos(), *key).1,
            event_matches(e, old(self).text(), *key),
            0 <= final(self).cursor_pos() <= final(self).text().len(),
    {
        proof {
            use_type_invariant(&*self);
        }
        let v = chars_of(self.value.as_str());
        let c = self.cursor;
        let n = v.len();
        match key.code {
            KeyCode::Esc => {
                *self = TextInput { value: String::new(), cursor: 0 };
                TextInputEvent::Cancelled
            },
            KeyCode::Enter => TextInputEvent::Submitted(self.value.clone()),
            KeyCode::Backspace => {
                if c > 0 {
                    let s = splice(&v, c - 1, c, None);
                    *self = TextInput { value: s, cursor: c - 1 };
                }
                TextInputEvent::Changed
            },
            KeyCode::Delete => {
                if c < n {
                    let s = splice(&v, c, c + 1, None);
                    *self = TextInput { value: s, cursor: c };
                }
                TextInputEvent::Changed
            },
            KeyCode::Left => {
                if c > 0 {
                    self.cursor = c - 1;
                }
                TextInputEvent::Changed
            },
            KeyCode::Right => {
                if c < n {
                    self.cursor = c + 1;
                }
                TextInputEvent::Changed
            },
            KeyCode::Char(ch) => {
                if key.ctrl && ch == 'a' {
                    self.cursor = 0;
                } else if key.ctrl && ch == 'e' {
                    self.cursor = n;
                } else if key.ctrl && ch == 'w' {
                    let start = Self::word_start_exec(&v, c);
                    let s = splice(&v, start, c, None);
                    *self = TextInput { value: s, cursor: start };
                } else if key.ctrl && ch == 'u' {
                    let s = splice(&v, 0, c, None);
                    *self = TextInput { value: s, cursor: 0 };
                } else if key.ctrl && ch == 'k' {
                    let s = splice(&v, c, n, None);
                    *self = TextInput { value: s, cursor: c };
                } else {
                    let s = splice(&v, c, c, Some(ch));
                    *self = TextInput { value: s, cursor: c + 1 };
                }
                TextInputEvent::Changed
            },
            _ => TextInputEvent::Ignored,
        }
    }

    fn word_start_exec(v: &Vec<char>, c: usize) -> (r: usize)
        requires
            c <= v@.len(),
        ensures
            r == word_start(v@, c as int),
            r <= c,
    {
        proof {
            lemma_word_start_bounds(v@, c as int);
        }
        proof {
            lemma_rfind_bounds(v@, c as int, false);
        }
        match rfind_ws_exec(v, c, false) {
            None => 0,
            Some(i) => {
                proof {
                    lemma_rfind_bounds(v@, i as int, true);
                }
                match rfind_ws_exec(v, i, true) {
                    None => 0,
                    Some(j) => j + 1,
                }
            },
        }
    }

    /// Whether `key` may be given to [`TextInput::handle_key`] now: false for a Ctrl-W whose
    /// deletion would end in the middle of a multi-byte white-space character (and for a text
    /// too long to grow).
    pub fn accepts(&self, key: &Key) -> (b: bool)
        ensures
            b == key_allowed(self.text(), self.cursor_pos(), *key),
    {
        proof {
            use_type_invariant(self);
        }
        let v = chars_of(self.value.as_str());
        if v.len() == usize::MAX {
            return false;
        }
        if !(key.ctrl && key.code == KeyCode::Char('w')) {
            return true;
        }
        proof {
            lemma_rfind_bounds(v@, self.cursor as int, false);
        }
        let i = match rfind_ws_exec(&v, self.cursor, false) {
            None => return true,
            Some(i) => i,
        };
        proof {
            lemma_rfind_bounds(v@, i as int, true);
        }
        let j = match rfind_ws_exec(&v, i, true) {
            None => return true,
            Some(j) => j,
        };
        (v[j] as u32) < 0x80
    }

    /// The text being edited.
    pub fn value(&self) -> (s: &str)
        ensures
            s@ == self.text(),
    {
        self.value.as_str()
    }

    /// The text with a `|` marking the cursor.
    pub fn display(&self) -> (s: String)
        ensures
            s@ == self.text().subrange(0, self.cursor_pos()) + seq!['|'] + self.text().subrange(
                self.cursor_pos(),
                self.text().len() as int,
            ),
    {
        proof {
            use_type_invariant(self);
        }
        let v = chars_of(self.value.as_str());
        splice(&v, self.cursor, self.cursor, Some('|'))
    }
}

} // verus!
