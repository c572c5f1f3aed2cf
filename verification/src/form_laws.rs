//! What each key does to a form, stated over the form before and after.
use vstd::prelude::*;

use crate::form::{after_field_event, focus_ok, form_key_step, with_field, FormEvent, FormView};
use crate::form_field::{field_key_step, validation_result, with_error, FormFieldEvent, FormFieldView};
use crate::key::{Key, KeyCode};
use crate::text_input::edit;

verus! {

/// The field event and new field that a form step went through.
spec fn step_witness(old: FormView, key: Key, r: Option<FormEvent>, new: FormView) -> (FormFieldEvent, FormFieldView) {
    choose|e: FormFieldEvent, nf: FormFieldView|
        {
            &&& field_key_step(old.fields[old.focused], key, e, nf)
            &&& after_field_event(with_field(old, old.focused, nf), e, r, new)
        }
}

/// Shift+Tab moves the focus to the previous field (from the first to the last) and changes
/// nothing else.
pub proof fn law_shift_tab_focuses_the_previous_field(old: FormView, ctrl: bool, r: Option<FormEvent>, new: FormView)
    requires
        focus_ok(old),
        old.fields.len() > 0,
        form_key_step(old, Key { code: KeyCode::BackTab, ctrl }, r, new),
    ensures
        r is None,
        new.fields == old.fields,
        new.title == old.title && new.form_error == old.form_error,
        old.focused > 0 ==> new.focused == old.focused - 1,
        old.focused == 0 ==> new.focused == old.fields.len() - 1,
{
    let (e, nf) = step_witness(old, Key { code: KeyCode::BackTab, ctrl }, r, new);
    assert(with_field(old, old.focused, nf).fields =~= old.fields);
}

/// Tab checks the focused field. When it passes, its error is cleared, the field reports
/// its value as blurred and the focus moves to the next field (from the last to the first).
/// When it fails, the field shows the failure's message and the focus stays.
pub proof fn law_tab_validates_then_moves_on(old: FormView, ctrl: bool, r: Option<FormEvent>, new: FormView)
    requires
        focus_ok(old),
        old.fields.len() > 0,
        form_key_step(old, Key { code: KeyCode::Tab, ctrl }, r, new),
    ensures
        ({
            let f = old.focused;
            let n = old.fields.len() as int;
            &&& new.title == old.title && new.form_error == old.form_error
            &&& new.fields.len() == n
            &&& forall|k: int| 0 <= k < n && k != f ==> #[trigger] new.fields[k] == old.fields[k]
            &&& match validation_result(old.fields[f]) {
                Ok(_) => {
                    &&& r matches Some(FormEvent::FieldBlurred { field_index, value })
                    &&& field_index == f && value@ == old.fields[f].text
                    &&& new.focused == if f + 1 < n { f + 1 } else { 0 }
                    &&& new.fields[f] == with_error(old.fields[f], None)
                },
                Err(msg) => {
                    &&& r is None
                    &&& new.focused == f
                    &&& new.fields[f] == with_error(old.fields[f], Some(msg))
                },
            }
        }),
{
    let key = Key { code: KeyCode::Tab, ctrl };
    let (e, nf) = step_witness(old, key, r, new);
    let f = old.focused;
    let n = old.fields.len() as int;
    let mid = with_field(old, f, nf);
    let vr = choose|vr: Result<(), Seq<char>>|
        {
            &&& crate::form_field::validate_step(old.fields[f], vr, nf)
            &&& match vr {
                Ok(_) => e matches FormFieldEvent::Blurred(v) && v@ == old.fields[f].text,
                Err(_) => e == FormFieldEvent::Changed,
            }
        };
    assert(vr == validation_result(old.fields[f]));
    assert(0 <= f < n);
    if f + 1 < n {
        assert((f + 1) % n == f + 1) by (nonlinear_arith)
            requires
                0 <= f + 1 < n,
        ;
    } else {
        assert((f + 1) % n == 0) by (nonlinear_arith)
            requires
                f + 1 == n,
                n > 0,
        ;
    }
}

/// Tab on a field that passes, then Shift+Tab, brings the focus back to that field.
pub proof fn law_tab_then_shift_tab_returns(
    old: FormView,
    ctrl: bool,
    r1: Option<FormEvent>,
    mid: FormView,
    r2: Option<FormEvent>,
    new: FormView,
)
    requires
        focus_ok(old),
        old.fields.len() > 0,
        validation_result(old.fields[old.focused]) is Ok,
        form_key_step(old, Key { code: KeyCode::Tab, ctrl }, r1, mid),
        form_key_step(mid, Key { code: KeyCode::BackTab, ctrl }, r2, new),
    ensures
        new.focused == old.focused,
{
    law_tab_validates_then_moves_on(old, ctrl, r1, mid);
    law_shift_tab_focuses_the_previous_field(mid, ctrl, r2, new);
}

/// Esc cancels the form: it reports the cancellation, empties the focused field's text and
/// changes nothing else.
pub proof fn law_escape_cancels_the_form(old: FormView, ctrl: bool, r: Option<FormEvent>, new: FormView)
    requires
        focus_ok(old),
        old.fields.len() > 0,
        form_key_step(old, Key { code: KeyCode::Esc, ctrl }, r, new),
    ensures
        r == Some(FormEvent::Cancelled),
        new.focused == old.focused,
        new.title == old.title && new.form_error == old.form_error,
        new.fields.len() == old.fields.len(),
        new.fields[old.focused].text.len() == 0,
        new.fields[old.focused].cursor == 0,
        forall|k: int| 0 <= k < old.fields.len() && k != old.focused ==> #[trigger] new.fields[k] == old.fields[k],
{
    let (e, nf) = step_witness(old, Key { code: KeyCode::Esc, ctrl }, r, new);
}

/// An editing or cursor key goes to the focused field alone: its text and cursor change as
/// the line editor says, the focus and the other fields stay, and nothing is reported.
pub proof fn law_keys_edit_the_focused_field(old: FormView, key: Key, r: Option<FormEvent>, new: FormView)
    requires
        focus_ok(old),
        old.fields.len() > 0,
        key.code != KeyCode::Tab && key.code != KeyCode::BackTab,
        key.code != KeyCode::Enter && key.code != KeyCode::Esc,
        form_key_step(old, key, r, new),
    ensures
        r is None,
        new.focused == old.focused,
        new.title == old.title && new.form_error == old.form_error,
        new.fields.len() == old.fields.len(),
        new.fields[old.focused].text == edit(old.fields[old.focused].text, old.fields[old.focused].cursor, key).0,
        new.fields[old.focused].cursor == edit(old.fields[old.focused].text, old.fields[old.focused].cursor, key).1,
        new.fields[old.focused].error == old.fields[old.focused].error,
        forall|k: int| 0 <= k < old.fields.len() && k != old.focused ==> #[trigger] new.fields[k] == old.fields[k],
{
    let (e, nf) = step_witness(old, key, r, new);
}

} // verus!
