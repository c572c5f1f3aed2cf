//! Properties of the library that relate several operations.
use vstd::prelude::*;

use crate::form::{form_key_step, FormEvent, FormView};
use crate::form_field::{validate_step, FormFieldView};
use crate::form_layout::{field_height, field_lines, fields_lines, form_lines, modal_area_spec, LineView};
use crate::image_protocol_cache::{has_key, insert_spec, key_pos, keys_distinct, MAX_SIZE};
use crate::images::{group_rows, Image};
use crate::key::{Key, KeyCode};
use crate::mime_type::{bare_content_type, content_type_spec, extension_spec, first_index_of, format_of_content_type, format_of_extension, MimeType};
use crate::scroll_list::{down_spec, resize_spec, selection_ok, up_spec, ScrollListView};
use crate::tags::Tag;
use crate::text::{ascii_lowercase_spec, trim_spec, trim_start_index, trim_end_index};
use crate::text_input::edit;
use crate::tui::{kura_event_step, Action, Effect, KuraView, TuiEvent};

verus! {

/// The extension a format is stored under names that format again.
pub proof fn law_extension_round_trip(m: MimeType)
    ensures
        format_of_extension(ascii_lowercase_spec(extension_spec(m))) == Some(m),
{
    reveal_strlit("png");
    reveal_strlit("jpg");
    reveal_strlit("gif");
    reveal_strlit("webp");
    reveal_strlit("jpeg");
    let e = extension_spec(m);
    assert(ascii_lowercase_spec(e) =~= e);
    match m {
        MimeType::Png => {},
        MimeType::Jpeg => {
            assert("jpg"@[0] != "png"@[0]);
        },
        MimeType::Gif => {
            assert("gif"@[0] != "png"@[0]);
            assert("gif"@[0] != "jpg"@[0]);
            assert("gif"@.len() != "jpeg"@.len());
        },
        MimeType::WebP => {
            assert("webp"@.len() != "png"@.len());
            assert("webp"@.len() != "jpg"@.len());
            assert("webp"@[0] != "jpeg"@[0]);
            assert("webp"@.len() != "gif"@.len());
        },
    }
}

/// The content type of a format names that format again.
pub proof fn law_content_type_round_trip(m: MimeType)
    ensures
        format_of_content_type(bare_content_type(content_type_spec(m))) == Some(m),
{
    reveal_strlit("image/png");
    reveal_strlit("image/jpeg");
    reveal_strlit("image/gif");
    reveal_strlit("image/webp");
    reveal_strlit("image/jpg");
    let ct = content_type_spec(m);
    assert(first_index_of(ct, ';', 0) == ct.len()) by {
        lemma_no_semicolon(ct, 0);
    }
    assert(ct.subrange(0, ct.len() as int) =~= ct);
    assert(trim_start_index(ct, 0) == 0);
    assert(trim_end_index(ct, ct.len() as int, 0) == ct.len());
    assert(trim_spec(ct) =~= ct);
}

proof fn lemma_no_semicolon(s: Seq<char>, i: int)
    requires
        0 <= i <= s.len(),
        forall|k: int| 0 <= k < s.len() ==> s[k] != ';',
    ensures
        first_index_of(s, ';', i) == s.len(),
    decreases s.len() - i,
{
    if i < s.len() {
        lemma_no_semicolon(s, i + 1);
    }
}

/// Typing a character and then Backspace gives back the text and the cursor.
pub proof fn law_type_then_backspace(v: Seq<char>, c: int, ch: char)
    requires
        0 <= c <= v.len(),
    ensures
        ({
            let typed = edit(v, c, Key { code: KeyCode::Char(ch), ctrl: false });
            edit(typed.0, typed.1, Key { code: KeyCode::Backspace, ctrl: false })
        }) == (v, c),
{
    let typed = edit(v, c, Key { code: KeyCode::Char(ch), ctrl: false });
    assert(typed.0 =~= v.subrange(0, c).push(ch) + v.subrange(c, v.len() as int));
    let back = edit(typed.0, typed.1, Key { code: KeyCode::Backspace, ctrl: false });
    assert(back.0 =~= v);
}

/// Typing a plain character puts it before the cursor and moves the cursor past it.
pub proof fn law_typing_inserts_at_cursor(v: Seq<char>, c: int, ch: char)
    requires
        0 <= c <= v.len(),
    ensures
        ({
            let typed = edit(v, c, Key { code: KeyCode::Char(ch), ctrl: false });
            &&& typed.1 == c + 1
            &&& typed.0.len() == v.len() + 1
            &&& typed.0[c] == ch
            &&& typed.0.subrange(0, c) == v.subrange(0, c)
            &&& typed.0.subrange(c + 1, typed.0.len() as int) == v.subrange(c, v.len() as int)
        }),
{
    let typed = edit(v, c, Key { code: KeyCode::Char(ch), ctrl: false });
    assert(typed.0.subrange(0, c) =~= v.subrange(0, c));
    assert(typed.0.subrange(c + 1, typed.0.len() as int) =~= v.subrange(c, v.len() as int));
}

/// Moving left and then right returns the cursor to where it was, unless it was at the start.
pub proof fn law_left_then_right(v: Seq<char>, c: int, ctrl: bool)
    requires
        0 < c <= v.len(),
    ensures
        ({
            let l = edit(v, c, Key { code: KeyCode::Left, ctrl });
            edit(l.0, l.1, Key { code: KeyCode::Right, ctrl })
        }) == (v, c),
{
}

/// Esc empties the input whatever it held.
pub proof fn law_escape_clears(v: Seq<char>, c: int, ctrl: bool)
    ensures
        edit(v, c, Key { code: KeyCode::Esc, ctrl }).0.len() == 0,
        edit(v, c, Key { code: KeyCode::Esc, ctrl }).1 == 0,
{
}

/// Deleting the word before the cursor keeps everything after the cursor.
pub proof fn law_word_delete_keeps_rest(v: Seq<char>, c: int)
    requires
        0 <= c <= v.len(),
    ensures
        ({
            let r = edit(v, c, Key { code: KeyCode::Char('w'), ctrl: true });
            &&& 0 <= r.1 <= c
            &&& r.0.subrange(0, r.1) == v.subrange(0, r.1)
            &&& r.0.subrange(r.1, r.0.len() as int) == v.subrange(c, v.len() as int)
        }),
{
    crate::text_input::lemma_word_start_bounds(v, c);
    let r = edit(v, c, Key { code: KeyCode::Char('w'), ctrl: true });
    assert(r.0.subrange(0, r.1) =~= v.subrange(0, r.1));
    assert(r.0.subrange(r.1, r.0.len() as int) =~= v.subrange(c, v.len() as int));
}

/// After a validation the field shows an error exactly when the validation failed, and the
/// error is the failure's message; nothing but the error changes.
pub proof fn law_validation_error_matches(old: FormFieldView, r: Result<(), Seq<char>>, new: FormFieldView)
    requires
        validate_step(old, r, new),
    ensures
        new.error is Some <==> r is Err,
        r matches Err(e) ==> new.error == Some(e),
        new.text == old.text && new.label == old.label && new.required == old.required,
{
}

/// Scrolling, resizing and selecting keep a valid selection valid.
pub proof fn law_selection_stays_valid(s: ScrollListView, len: int)
    requires
        selection_ok(s),
        len >= 0,
    ensures
        selection_ok(ScrollListView { selected: up_spec(s), ..s }),
        selection_ok(ScrollListView { selected: down_spec(s), ..s }),
        selection_ok(ScrollListView { selected: resize_spec(s.selected, len), len, ..s }),
{
}

/// Without wrapping, one step down from an item that is not the last and one step up
/// return to it.
pub proof fn law_down_then_up(s: ScrollListView, i: int)
    requires
        selection_ok(s),
        s.selected == Some(i),
        i + 1 < s.len,
    ensures
        up_spec(ScrollListView { selected: down_spec(s), ..s }) == Some(i),
{
}

/// With wrapping, one step down from the last item selects the first, and one step up from
/// the first selects the last.
pub proof fn law_wrapping(s: ScrollListView)
    requires
        selection_ok(s),
        s.wrap,
        s.len > 0,
    ensures
        s.selected == Some(s.len - 1) ==> down_spec(s) == Some(0int),
        s.selected == Some(0int) ==> up_spec(s) == Some(s.len - 1),
{
}

/// After storing a value under a key, the key is present with that value, the cache stays
/// within its capacity, and keys stay distinct.
pub proof fn law_cache_insert_then_lookup<P>(e: Seq<(Seq<char>, P)>, k: Seq<char>, v: P)
    requires
        e.len() <= MAX_SIZE,
        keys_distinct(e),
    ensures
        has_key(insert_spec(e, k, v), k),
        insert_spec(e, k, v)[key_pos(insert_spec(e, k, v), k)].1 == v,
        insert_spec(e, k, v).len() <= MAX_SIZE,
        keys_distinct(insert_spec(e, k, v)),
{
    let n = insert_spec(e, k, v);
    if has_key(e, k) {
        let p = key_pos(e, k);
        assert(n[p].0 == k);
        assert(has_key(n, k));
        let q = key_pos(n, k);
        if q != p {
            assert(n[q].0 == e[q].0);
        }
    } else {
        assert(n[n.len() - 1].0 == k);
        assert(has_key(n, k));
        let q = key_pos(n, k);
        if q != n.len() - 1 {
            if e.len() >= MAX_SIZE {
                assert(n[q] == e[q + 1]);
            } else {
                assert(n[q] == e[q]);
            }
        }
        assert forall|i: int, j: int| 0 <= i < j < n.len() implies (#[trigger] n[i]).0 != (#[trigger] n[j]).0 by {
            if e.len() >= MAX_SIZE {
                if j < n.len() - 1 {
                    assert(n[i] == e[i + 1] && n[j] == e[j + 1]);
                } else {
                    assert(n[i] == e[i + 1]);
                }
            } else {
                if j < n.len() - 1 {
                    assert(n[i] == e[i] && n[j] == e[j]);
                } else {
                    assert(n[i] == e[i]);
                }
            }
        }
    }
}

/// Storing under a key that is already present keeps every key in its place.
pub proof fn law_cache_reinsert_keeps_order<P>(e: Seq<(Seq<char>, P)>, k: Seq<char>, v: P)
    requires
        has_key(e, k),
    ensures
        insert_spec(e, k, v).len() == e.len(),
        forall|i: int| 0 <= i < e.len() ==> (#[trigger] insert_spec(e, k, v)[i]).0 == e[i].0,
{
}

/// The number of tags of the grouped images is the number of rows that carry a tag.
pub open spec fn tag_rows(rows: Seq<(Image, Option<Tag>)>) -> nat
    decreases rows.len(),
{
    if rows.len() == 0 {
        0
    } else {
        tag_rows(rows.drop_last()) + if rows.last().1 is Some {
            1nat
        } else {
            0nat
        }
    }
}

/// The number of tags over all groups.
pub open spec fn group_tags(g: Seq<(Image, Seq<Tag>)>) -> nat
    decreases g.len(),
{
    if g.len() == 0 {
        0
    } else {
        group_tags(g.drop_last()) + g.last().1.len()
    }
}

/// Grouping rows loses no tag and invents none, and two neighbouring groups never share a
/// hash.
pub proof fn law_grouping_keeps_tags(rows: Seq<(Image, Option<Tag>)>)
    ensures
        group_tags(group_rows(rows)) == tag_rows(rows),
        forall|i: int| 0 <= i < group_rows(rows).len() - 1 ==> (#[trigger] group_rows(rows)[i]).0.hash.0@
            != group_rows(rows)[i + 1].0.hash.0@,
        group_rows(rows).len() <= rows.len(),
    decreases rows.len(),
{
    if rows.len() > 0 {
        let prev = rows.drop_last();
        law_grouping_keeps_tags(prev);
        let g = group_rows(prev);
        let img = rows.last().0;
        let g1 = if g.len() == 0 || g.last().0.hash.0@ != img.hash.0@ {
            g.push((img, Seq::empty()))
        } else {
            g
        };
        assert(g1.drop_last() =~= g.drop_last() || g1.drop_last() =~= g);
        if g.len() == 0 || g.last().0.hash.0@ != img.hash.0@ {
            assert(g1.drop_last() =~= g);
        } else {
            assert(g1 =~= g);
        }
        let g2 = group_rows(rows);
        match rows.last().1 {
            Some(t) => {
                assert(g2.drop_last() =~= g1.drop_last());
            },
            None => {},
        }
    }
}

/// A form hands out its values only when every field passed validation: after a
/// submission no field shows an error, and the values are the fields' texts in order.
pub proof fn law_submission_means_all_valid(old: FormView, key: Key, vals: Vec<String>, new: FormView)
    requires
        form_key_step(old, key, Some(FormEvent::Submitted(vals)), new),
    ensures
        vals@.len() == new.fields.len(),
        forall|i: int| 0 <= i < new.fields.len() ==> (#[trigger] new.fields[i]).error is None
            && vals@[i]@ == new.fields[i].text,
{
    let r = Some(FormEvent::Submitted(vals));
    let (e, nf) = choose|e: crate::form_field::FormFieldEvent, nf: FormFieldView|
        {
            &&& crate::form_field::field_key_step(old.fields[old.focused], key, e, nf)
            &&& crate::form::after_field_event(crate::form::with_field(old, old.focused, nf), e, r, new)
        };
    let mid = crate::form::with_field(old, old.focused, nf);
    assert(e is Submitted);
    assert forall|i: int| 0 <= i < new.fields.len() implies (#[trigger] new.fields[i]).error is None
        && vals@[i]@ == new.fields[i].text by {
        assert(validate_step(mid.fields[i], Ok(()), new.fields[i]));
    }
}

/// A new key stored in a full cache evicts the oldest entry: its key is gone afterwards.
pub proof fn law_cache_evicts_oldest<P>(e: Seq<(Seq<char>, P)>, k: Seq<char>, v: P)
    requires
        e.len() == MAX_SIZE,
        keys_distinct(e),
        !has_key(e, k),
    ensures
        !has_key(insert_spec(e, k, v), e[0].0),
        insert_spec(e, k, v).len() == MAX_SIZE,
{
    let n = insert_spec(e, k, v);
    assert(n == e.drop_first().push((k, v)));
    if has_key(n, e[0].0) {
        let j = choose|j: int| 0 <= j < n.len() && (#[trigger] n[j]).0 == e[0].0;
        if j < n.len() - 1 {
            assert(n[j] == e[j + 1]);
            assert(e[0].0 != e[j + 1].0);
        } else {
            assert(n[j].0 == k);
            assert(e[0].0 == k);
            assert(has_key(e, k));
        }
    }
}

/// Taking a key out of the cache removes it and nothing else.
pub proof fn law_cache_take_removes<P>(e: Seq<(Seq<char>, P)>, k: Seq<char>)
    requires
        keys_distinct(e),
        has_key(e, k),
    ensures
        !has_key(e.remove(key_pos(e, k)), k),
        e.remove(key_pos(e, k)).len() == e.len() - 1,
        forall|k2: Seq<char>| k2 != k ==> (has_key(e.remove(key_pos(e, k)), k2) <==> has_key(e, k2)),
{
    let p = key_pos(e, k);
    let r = e.remove(p);
    assert(0 <= p < e.len() && e[p].0 == k);
    if has_key(r, k) {
        let j = choose|j: int| 0 <= j < r.len() && (#[trigger] r[j]).0 == k;
        if j < p {
            assert(r[j] == e[j]);
        } else {
            assert(r[j] == e[j + 1]);
        }
    }
    assert forall|k2: Seq<char>| k2 != k implies (has_key(r, k2) <==> has_key(e, k2)) by {
        if has_key(r, k2) {
            let j = choose|j: int| 0 <= j < r.len() && (#[trigger] r[j]).0 == k2;
            if j < p {
                assert(r[j] == e[j]);
            } else {
                assert(r[j] == e[j + 1]);
            }
        }
        if has_key(e, k2) {
            let j = choose|j: int| 0 <= j < e.len() && (#[trigger] e[j]).0 == k2;
            assert(j != p);
            if j < p {
                assert(r[j] == e[j]);
            } else {
                assert(r[j - 1] == e[j]);
            }
        }
    }
}

/// Rows strictly increase from one line to the next.
pub open spec fn rows_increasing(ls: Seq<LineView>) -> bool {
    forall|i: int, j: int| 0 <= i < j < ls.len() ==> (#[trigger] ls[i]).y < (#[trigger] ls[j]).y
}

/// Every line lies in the rows `lo..hi`.
pub open spec fn rows_within(ls: Seq<LineView>, lo: int, hi: int) -> bool {
    forall|i: int| 0 <= i < ls.len() ==> lo <= (#[trigger] ls[i]).y < hi
}

proof fn lemma_concat_rows(a: Seq<LineView>, b: Seq<LineView>, lo: int, mid: int, hi: int)
    requires
        lo <= mid <= hi,
        rows_increasing(a),
        rows_increasing(b),
        rows_within(a, lo, mid),
        rows_within(b, mid, hi),
    ensures
        rows_increasing(a + b),
        rows_within(a + b, lo, hi),
{
    let c = a + b;
    assert forall|i: int, j: int| 0 <= i < j < c.len() implies (#[trigger] c[i]).y < (#[trigger] c[j]).y by {
        if j < a.len() {
            assert(c[i] == a[i] && c[j] == a[j]);
        } else if i < a.len() {
            assert(c[i] == a[i] && c[j] == b[j - a.len()]);
        } else {
            assert(c[i] == b[i - a.len()] && c[j] == b[j - a.len()]);
        }
    }
    assert forall|i: int| 0 <= i < c.len() implies lo <= (#[trigger] c[i]).y < hi by {
        if i < a.len() {
            assert(c[i] == a[i]);
        } else {
            assert(c[i] == b[i - a.len()]);
        }
    }
}

proof fn lemma_fields_lines_rows(fields: Seq<FormFieldView>, focused: int, i: int, y: int, limit: int)
    ensures
        rows_increasing(fields_lines(fields, focused, i, y, limit).0),
        rows_within(fields_lines(fields, focused, i, y, limit).0, y, fields_lines(fields, focused, i, y, limit).1),
        y <= fields_lines(fields, focused, i, y, limit).1,
        fields_lines(fields, focused, i, y, limit).0.len() > 0 ==> y < limit
            && fields_lines(fields, focused, i, y, limit).1 <= limit + 2,
    decreases fields.len() - i,
{
    if i >= fields.len() || i < 0 || y >= limit {
    } else {
        let h = field_height(fields[i]);
        lemma_fields_lines_rows(fields, focused, i + 1, y + h, limit);
        let fl = field_lines(fields[i], i == focused, y);
        let rest = fields_lines(fields, focused, i + 1, y + h, limit);
        assert(rows_increasing(fl));
        assert(rows_within(fl, y, y + h));
        lemma_concat_rows(fl, rest.0, y, y + h, rest.1);
        if y + h >= limit {
            assert(rest.1 == y + h);
        }
    }
}

/// The lines of a form come top to bottom, one per row, and all lie inside the area they
/// are laid out in (which has at least one row).
pub proof fn law_form_layout_fits(f: FormView, top: int, height: int)
    requires
        height >= 1,
    ensures
        rows_increasing(form_lines(f, top, height)),
        rows_within(form_lines(f, top, height), top, top + height),
{
    let limit = top + if height >= 2 {
        height - 2
    } else {
        0
    };
    let y0 = if f.form_error is Some {
        top + 2
    } else {
        top
    };
    let fl = fields_lines(f.fields, f.focused, 0, y0, limit);
    lemma_fields_lines_rows(f.fields, f.focused, 0, y0, limit);
    let error_lines: Seq<LineView> = match f.form_error {
        Some(e) => seq![LineView { y: top, spans: seq![("Error: "@ + e, crate::form_layout::LineColor::Red)] }],
        None => Seq::empty(),
    };
    let help: Seq<LineView> = if fl.1 < top + height {
        seq![
            LineView {
                y: top + height - 1,
                spans: seq![(crate::form_layout::help_text(), crate::form_layout::LineColor::DarkGray)],
            },
        ]
    } else {
        Seq::empty()
    };
    assert(form_lines(f, top, height) == error_lines + fl.0 + help);
    // The form error takes the rows before the fields; the fields end where they end.
    let hi_fields = if fl.0.len() > 0 {
        fl.1
    } else {
        y0
    };
    assert(rows_within(error_lines, top, y0));
    lemma_concat_rows(error_lines, fl.0, top, y0, hi_fields);
    if help.len() > 0 {
        assert(hi_fields <= top + height - 1);
        assert(rows_within(help, top + height - 1, top + height));
        lemma_concat_rows(error_lines + fl.0, help, top, top + height - 1, top + height);
    } else {
        // Without the help line the fields may reach the last row, and no further.
        assert(error_lines + fl.0 + help =~= error_lines + fl.0);
        if fl.0.len() > 0 {
            assert(hi_fields <= top + height);
        }
        let c = error_lines + fl.0;
        assert forall|i: int| 0 <= i < c.len() implies top <= (#[trigger] c[i]).y < top + height by {
            if i >= error_lines.len() {
                assert(c[i] == fl.0[i - error_lines.len()]);
            }
        }
    }
}

/// The modal of a form is centred and fits inside the terminal: it is no wider and no
/// higher than the terminal, no higher than asked, and at least as far from the right and
/// bottom edges as from the left and top ones.
pub proof fn law_modal_area_fits(tw: int, th: int, width_percent: int, desired_height: int)
    requires
        tw >= 0,
        th >= 0,
        width_percent >= 0,
        desired_height >= 0,
    ensures
        ({
            let (x, y, w, h) = modal_area_spec(tw, th, width_percent, desired_height);
            &&& 0 <= w <= tw && 0 <= h <= th
            &&& h <= desired_height
            &&& 0 <= x && x + w <= tw && tw - (x + w) >= x
            &&& 0 <= y && y + h <= th && th - (y + h) >= y
        }),
{
    assert(tw * width_percent >= 0) by (nonlinear_arith)
        requires
            tw >= 0,
            width_percent >= 0,
    ;
}

/// In the browser, with no input open and a list that does not wrap, Down on the last image
/// and Up on the first change nothing and load no preview.
pub proof fn law_browsing_stops_at_the_ends(o: KuraView, code: KeyCode, ctrl: bool, a: Option<Action>, eff: Effect, n: KuraView)
    requires
        o.rename_input is None && o.tag_input is None && o.untag_input is None,
        !o.list.wrap,
        o.list.len > 0,
        code == KeyCode::Down && o.list.selected == Some(o.list.len - 1)
            || code == KeyCode::Up && o.list.selected == Some(0int),
        kura_event_step(o, TuiEvent::Key(Key { code, ctrl }), a, eff, n),
    ensures
        n == o,
        a is None,
        eff == Effect::Nothing,
{
}

} // verus!
