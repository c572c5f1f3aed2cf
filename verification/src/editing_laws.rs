//! What each key does to the text and cursor of a line editor, stated over its inputs.
use vstd::prelude::*;

use crate::key::{Key, KeyCode};
use crate::text::is_whitespace_spec;
use crate::text_input::{edit, event_matches, rfind_ws, TextInputEvent};

verus! {

proof fn lemma_rfind_skips(v: Seq<char>, end: int, ws: bool)
    requires
        0 <= end <= v.len(),
    ensures
        -1 <= rfind_ws(v, end, ws) < end,
        rfind_ws(v, end, ws) >= 0 ==> is_whitespace_spec(v[rfind_ws(v, end, ws)]) == ws,
        forall|k: int| rfind_ws(v, end, ws) < k < end ==> is_whitespace_spec(#[trigger] v[k]) != ws,
    decreases end,
{
    if end > 0 && is_whitespace_spec(v[end - 1]) != ws {
        lemma_rfind_skips(v, end - 1, ws);
    }
}

/// `v[s..c]` is a word `v[s..m]` (no white space) followed by white space `v[m..c]`; it
/// starts at the beginning of the text or just after white space, and unless it starts at the
/// beginning the word is not empty.
pub open spec fn word_then_space(v: Seq<char>, s: int, m: int, c: int) -> bool {
    &&& s <= m <= c
    &&& forall|k: int| s <= k < m ==> !is_whitespace_spec(#[trigger] v[k])
    &&& forall|k: int| m <= k < c ==> is_whitespace_spec(#[trigger] v[k])
    &&& s > 0 ==> m > s && is_whitespace_spec(v[s - 1])
}

/// Ctrl-K keeps exactly the text before the cursor, and the cursor stays where it was (now
/// at the end).
pub proof fn law_ctrl_k_cuts_to_the_end(v: Seq<char>, c: int)
    requires
        0 <= c <= v.len(),
    ensures
        edit(v, c, Key { code: KeyCode::Char('k'), ctrl: true }).0 == v.subrange(0, c),
        edit(v, c, Key { code: KeyCode::Char('k'), ctrl: true }).1 == c,
        edit(v, c, Key { code: KeyCode::Char('k'), ctrl: true }).0.len() == c,
{
}

/// Ctrl-U keeps exactly the text after the cursor, and the cursor goes to the start.
pub proof fn law_ctrl_u_cuts_to_the_start(v: Seq<char>, c: int)
    requires
        0 <= c <= v.len(),
    ensures
        edit(v, c, Key { code: KeyCode::Char('u'), ctrl: true }).0 == v.subrange(c, v.len() as int),
        edit(v, c, Key { code: KeyCode::Char('u'), ctrl: true }).1 == 0,
{
}

/// Ctrl-A and Ctrl-E move the cursor to the start and the end, leaving the text alone.
pub proof fn law_ctrl_a_and_e_jump(v: Seq<char>, c: int)
    requires
        0 <= c <= v.len(),
    ensures
        edit(v, c, Key { code: KeyCode::Char('a'), ctrl: true }) == (v, 0int),
        edit(v, c, Key { code: KeyCode::Char('e'), ctrl: true }) == (v, v.len() as int),
{
}

/// Delete removes exactly the character after the cursor (nothing at the end); the cursor
/// stays.
pub proof fn law_delete_removes_the_next_character(v: Seq<char>, c: int, ctrl: bool)
    requires
        0 <= c <= v.len(),
    ensures
        ({
            let r = edit(v, c, Key { code: KeyCode::Delete, ctrl });
            &&& r.1 == c
            &&& c == v.len() ==> r.0 == v
            &&& c < v.len() ==> {
                &&& r.0.len() == v.len() - 1
                &&& r.0.subrange(0, c) == v.subrange(0, c)
                &&& r.0.subrange(c, r.0.len() as int) == v.subrange(c + 1, v.len() as int)
            }
        }),
{
    let r = edit(v, c, Key { code: KeyCode::Delete, ctrl });
    if c < v.len() {
        assert(r.0.subrange(0, c) =~= v.subrange(0, c));
        assert(r.0.subrange(c, r.0.len() as int) =~= v.subrange(c + 1, v.len() as int));
    }
}

/// Backspace removes exactly the character before the cursor and moves the cursor back over
/// it (nothing at the start).
pub proof fn law_backspace_removes_the_previous_character(v: Seq<char>, c: int, ctrl: bool)
    requires
        0 <= c <= v.len(),
    ensures
        ({
            let r = edit(v, c, Key { code: KeyCode::Backspace, ctrl });
            &&& c == 0 ==> r == (v, c)
            &&& c > 0 ==> {
                &&& r.1 == c - 1
                &&& r.0.len() == v.len() - 1
                &&& r.0.subrange(0, c - 1) == v.subrange(0, c - 1)
                &&& r.0.subrange(c - 1, r.0.len() as int) == v.subrange(c, v.len() as int)
            }
        }),
{
    let r = edit(v, c, Key { code: KeyCode::Backspace, ctrl });
    if c > 0 {
        assert(r.0.subrange(0, c - 1) =~= v.subrange(0, c - 1));
        assert(r.0.subrange(c - 1, r.0.len() as int) =~= v.subrange(c, v.len() as int));
    }
}

/// Left and Right move the cursor one character, stopping at the ends; the text stays.
pub proof fn law_arrows_move_one_character(v: Seq<char>, c: int, ctrl: bool)
    requires
        0 <= c <= v.len(),
    ensures
        edit(v, c, Key { code: KeyCode::Left, ctrl }) == (v, if c > 0 { c - 1 } else { c }),
        edit(v, c, Key { code: KeyCode::Right, ctrl }) == (v, if c < v.len() { c + 1 } else { c }),
{
}

/// Enter and the keys the editor does not handle leave text and cursor alone.
pub proof fn law_other_keys_change_nothing(v: Seq<char>, c: int, key: Key)
    requires
        0 <= c <= v.len(),
        match key.code {
            KeyCode::Esc | KeyCode::Backspace | KeyCode::Delete | KeyCode::Left | KeyCode::Right
            | KeyCode::Char(_) => false,
            _ => true,
        },
    ensures
        edit(v, c, key) == (v, c),
{
}

/// A character typed with Control, other than the editing commands a, e, w, u and k, is
/// inserted like a plain one.
pub proof fn law_other_control_characters_insert(v: Seq<char>, c: int, ch: char)
    requires
        0 <= c <= v.len(),
        ch != 'a' && ch != 'e' && ch != 'w' && ch != 'u' && ch != 'k',
    ensures
        edit(v, c, Key { code: KeyCode::Char(ch), ctrl: true }) == edit(
            v,
            c,
            Key { code: KeyCode::Char(ch), ctrl: false },
        ),
        edit(v, c, Key { code: KeyCode::Char(ch), ctrl: true }).0 == v.subrange(0, c).push(ch)
            + v.subrange(c, v.len() as int),
        edit(v, c, Key { code: KeyCode::Char(ch), ctrl: true }).1 == c + 1,
{
}

/// Ctrl-W deletes, just before the cursor, a word and the white space after it: the deleted
/// part is a run of non-white-space characters followed by a run of white space, it starts
/// at the beginning of the text or just after white space, and it is not empty of the word
/// unless it starts at the beginning. The rest of the text is kept and the cursor goes to
/// where the deletion started.
pub proof fn law_ctrl_w_deletes_the_previous_word(v: Seq<char>, c: int)
    requires
        0 <= c <= v.len(),
    ensures
        ({
            let r = edit(v, c, Key { code: KeyCode::Char('w'), ctrl: true });
            let s = r.1;
            &&& 0 <= s <= c
            &&& r.0 == v.subrange(0, s) + v.subrange(c, v.len() as int)
            &&& exists|m: int| #[trigger] word_then_space(v, s, m, c)
        }),
{
    let i = rfind_ws(v, c, false);
    lemma_rfind_skips(v, c, false);
    if i < 0 {
        assert(forall|k: int| 0 <= k < c ==> is_whitespace_spec(#[trigger] v[k]));
        assert(word_then_space(v, 0, 0, c));
    } else {
        let j = rfind_ws(v, i, true);
        lemma_rfind_skips(v, i, true);
        let m = i + 1;
        assert(forall|k: int| j + 1 <= k < m ==> !is_whitespace_spec(#[trigger] v[k]));
        assert(forall|k: int| m <= k < c ==> is_whitespace_spec(#[trigger] v[k]));
        assert(word_then_space(v, j + 1, m, c));
    }
}

/// The event reported: Esc cancels, Enter submits the text as it was, an editing or cursor
/// key reports a change, any other key is ignored.
pub proof fn law_editor_events(e: TextInputEvent, v: Seq<char>, key: Key)
    requires
        event_matches(e, v, key),
    ensures
        key.code == KeyCode::Esc ==> e == TextInputEvent::Cancelled,
        key.code == KeyCode::Enter ==> (e matches TextInputEvent::Submitted(s) && s@ == v),
        key.code is Backspace || key.code is Delete || key.code is Left || key.code is Right
            || key.code is Char ==> e == TextInputEvent::Changed,
        !(key.code is Esc || key.code is Enter || key.code is Backspace || key.code is Delete
            || key.code is Left || key.code is Right || key.code is Char) ==> e
            == TextInputEvent::Ignored,
{
}

} // verus!
