//! A modal form: a title, fields, a focused field and a form-level error.
use vstd::prelude::*;

use crate::form_field::{with_error, with_input, field_key_allowed, field_key_step, validate_step, FormField, FormFieldEvent, FormFieldView, result_view};
use crate::key::Key;

verus! {

/// What a key press did to a [`Form`].
#[derive(Debug, Clone, PartialEq, Eq)]
pub enum FormEvent {
    /// Form submitted with all field values
    Submitted(Vec<String>),
    /// Form cancelled
    Cancelled,
    /// Field blurred (Tab pressed) - for async validation or auto-fill
    FieldBlurred { field_index: usize, value: String },
}

/// The state of a form, as contracts speak of it.
pub struct FormView {
    pub title: Seq<char>,
    pub fields: Seq<FormFieldView>,
    pub focused: int,
    pub form_error: Option<Seq<char>>,
}

pub struct Form {
    title: String,
    fields: Vec<FormField>,
    focused_field: usize,
    form_error: Option<String>,
}

/// `f` with field `i` replaced by `nf`.
pub open spec fn with_field(f: FormView, i: int, nf: FormFieldView) -> FormView {
    FormView { fields: f.fields.update(i, nf), ..f }
}

/// The focused field is one of the fields (or 0 while there are none).
pub open spec fn focus_ok(f: FormView) -> bool {
    0 <= f.focused < f.fields.len() || (f.fields.len() == 0 && f.focused == 0)
}

/// Submitting `mid`: every field is validated in order until one fails. `r` is the
/// submission with all values when none fails, else nothing.
pub open spec fn submit_step(mid: FormView, r: Option<FormEvent>, new: FormView) -> bool {
    let n = mid.fields.len() as int;
    &&& new.title == mid.title
    &&& new.focused == mid.focused
    &&& new.form_error == mid.form_error
    &&& new.fields.len() == n
    &&& match r {
        Some(FormEvent::Submitted(vals)) => {
            &&& forall|i: int| 0 <= i < n ==> validate_step(mid.fields[i], Ok(()), #[trigger] new.fields[i])
            &&& vals@.len() == n
            &&& forall|i: int| 0 <= i < n ==> (#[trigger] vals@[i])@ == mid.fields[i].text
        },
        None => exists|k: int| #![trigger new.fields[k]]
            {
                &&& 0 <= k < n
                &&& forall|i: int| 0 <= i < k ==> validate_step(mid.fields[i], Ok(()), #[trigger] new.fields[i])
                &&& exists|msg: Seq<char>| #[trigger] validate_step(mid.fields[k], Err(msg), new.fields[k])
                &&& forall|i: int| k < i < n ==> #[trigger] new.fields[i] == mid.fields[i]
            },
        _ => false,
    }
}

/// What the form does with the event `e` of its focused field, which left the form `mid`.
pub open spec fn after_field_event(mid: FormView, e: FormFieldEvent, r: Option<FormEvent>, new: FormView) -> bool {
    let n = mid.fields.len() as int;
    let f = mid.focused;
    match e {
        FormFieldEvent::Submitted(_) => submit_step(mid, r, new),
        FormFieldEvent::Cancelled => r == Some(FormEvent::Cancelled) && new == mid,
        FormFieldEvent::Next => r is None && new == FormView { focused: (f + 1) % n, ..mid },
        FormFieldEvent::Previous => r is None && new == FormView {
            focused: if f == 0 {
                n - 1
            } else {
                f - 1
            },
            ..mid
        },
        FormFieldEvent::Blurred(v) => {
            &&& r matches Some(FormEvent::FieldBlurred { field_index, value }) && field_index == f
                && value@ == v@
            &&& new == FormView { focused: (f + 1) % n, ..mid }
        },
        FormFieldEvent::Changed => r is None && new == mid,
    }
}

/// Whether the form can take `key` now: the focused field must accept it.
pub open spec fn form_key_allowed(f: FormView, key: Key) -> bool {
    f.fields.len() > 0 ==> field_key_allowed(f.fields[f.focused], key)
}

/// One key press on the form `old`: it goes to the focused field, and the form reacts to
/// what the field reports. A form without fields ignores keys.
pub open spec fn form_key_step(old: FormView, key: Key, r: Option<FormEvent>, new: FormView) -> bool {
    if old.fields.len() == 0 {
        r is None && new == old
    } else {
        exists|e: FormFieldEvent, nf: FormFieldView|
            {
                &&& field_key_step(old.fields[old.focused], key, e, nf)
                &&& after_field_event(with_field(old, old.focused, nf), e, r, new)
            }
    }
}

impl View for Form {
    type V = FormView;

    closed spec fn view(&self) -> FormView {
        FormView {
            title: self.title@,
            fields: self.fields@.map_values(|f: FormField| f@),
            focused: self.focused_field as int,
            form_error: match self.form_error {
                Some(e) => Some(e@),
                None => None,
            },
        }
    }
}

impl Form {
    #[verifier::type_invariant]
    spec fn focus_in_fields(self) -> bool {
        self.focused_field < self.fields.len() || (self.fields.len() == 0 && self.focused_field == 0)
    }

    /// An empty form with a title.
    pub fn new(title: String) -> (f: Form)
        ensures
            f@ == (FormView { title: title@, fields: Seq::empty(), focused: 0, form_error: None }),
    {
        let f = Form { title, fields: Vec::new(), focused_field: 0, form_error: None };
        assert(f@.fields =~= Seq::<FormFieldView>::empty());
        f
    }

    /// The form with `field` appended.
    pub fn add_field(self, field: FormField) -> (f: Form)
        ensures
            f@ == (FormView { fields: self@.fields.push(field@), ..self@ }),
    {
        proof {
            use_type_invariant(&self);
        }
        let Form { title, mut fields, focused_field, form_error } = self;
        fields.push(field);
        let f = Form { title, fields, focused_field, form_error };
        assert(f@.fields =~= self@.fields.push(field@));
        f
    }

    /// The index of the focused field.
    pub fn focused_field(&self) -> (i: usize)
        ensures
            i == self@.focused,
            focus_ok(self@),
    {
        proof {
            use_type_invariant(self);
        }
        self.focused_field
    }

    /// Replaces the value of field `index` (see [`FormField::set_value`]); nothing happens when
    /// there is no such field.
    pub fn set_field_value(&mut self, index: usize, value: String)
        ensures
            index < old(self)@.fields.len() ==> final(self)@ == with_field(
                old(self)@,
                index as int,
                with_error(with_input(old(self)@.fields[index as int], value@, value@.len() as int), None),
            ),
            index >= old(self)@.fields.len() ==> final(self)@ == old(self)@,
    {
        proof {
            use_type_invariant(&*self);
        }
        if index < self.fields.len() {
            self.fields[index].set_value(value);
            assert(self@.fields =~= old(self)@.fields.update(
                index as int,
                with_error(with_input(old(self)@.fields[index as int], value@, value@.len() as int), None),
            ));
        }
    }

    /// Replaces the placeholder of field `index`; nothing happens when there is no such field.
    pub fn set_field_placeholder(&mut self, index: usize, placeholder: String)
        ensures
            index < old(self)@.fields.len() ==> final(self)@ == with_field(
                old(self)@,
                index as int,
                FormFieldView { placeholder: placeholder@, ..old(self)@.fields[index as int] },
            ),
            index >= old(self)@.fields.len() ==> final(self)@ == old(self)@,
    {
        proof {
            use_type_invariant(&*self);
        }
        if index < self.fields.len() {
            self.fields[index].set_placeholder(placeholder);
            assert(self@.fields =~= old(self)@.fields.update(
                index as int,
                FormFieldView { placeholder: placeholder@, ..old(self)@.fields[index as int] },
            ));
        }
    }

    /// The value of field `index`, if there is such a field.
    pub fn field_value(&self, index: usize) -> (v: Option<&str>)
        ensures
            match v {
                Some(s) => index < self@.fields.len() && s@ == self@.fields[index as int].text,
                None => index >= self@.fields.len(),
            },
    {
        if index < self.fields.len() {
            Some(self.fields[index].value())
        } else {
            None
        }
    }

    /// Sets or clears the form-level error.
    pub fn set_form_error(&mut self, error: Option<String>)
        ensures
            final(self)@ == (FormView {
                form_error: match error {
                    Some(e) => Some(e@),
                    None => None,
                },
                ..old(self)@
            }),
    {
        proof {
            use_type_invariant(&*self);
        }
        self.form_error = error;
    }

    /// Validates every field in order, stopping at the first failure; on success, the values.
    fn submit(&mut self) -> (r: Option<FormEvent>)
        ensures
            submit_step(old(self)@, r, final(self)@),
    {
        proof {
            use_type_invariant(&*self);
        }
        let n = self.fields.len();
        let mut i: usize = 0;
        while i < n
            invariant
                n == self.fields@.len() == old(self)@.fields.len(),
                0 <= i <= n,
                self@.title == old(self)@.title,
                self@.focused == old(self)@.focused,
                self@.form_error == old(self)@.form_error,
                self.focused_field < self.fields.len() || (self.fields.len() == 0 && self.focused_field == 0),
                forall|k: int| 0 <= k < i ==> validate_step(old(self)@.fields[k], Ok(()), #[trigger] self@.fields[k]),
                forall|k: int| i <= k < n ==> #[trigger] self@.fields[k] == old(self)@.fields[k],
            decreases n - i,
        {
            let ghost before = self.fields@;
            let ghost before_view = self@.fields;
            let r = self.fields[i].validate();
            proof {
                assert(self.fields@ == before.update(i as int, self.fields@[i as int]));
                assert forall|k: int| 0 <= k < n && k != i implies #[trigger] self@.fields[k] == before_view[k] by {
                    assert(self@.fields[k] == self.fields@[k]@);
                    assert(before_view[k] == before[k]@);
                }
                assert(self@.fields[i as int] == self.fields@[i as int]@);
                assert(before_view[i as int] == old(self)@.fields[i as int]);
            }
            if r.is_err() {
                proof {
                    let msg = result_view(r)->Err_0;
                    assert(validate_step(old(self)@.fields[i as int], Err(msg), self@.fields[i as int]));
                    assert(forall|k: int| i < k < n ==> #[trigger] self@.fields[k] == old(self)@.fields[k]);
                }
                return None;
            }
            i += 1;
        }
        let mut vals: Vec<String> = Vec::new();
        let mut j: usize = 0;
        while j < n
            invariant
                n == self.fields@.len(),
                0 <= j <= n,
                vals@.len() == j,
                forall|k: int| 0 <= k < j ==> (#[trigger] vals@[k])@ == self@.fields[k].text,
            decreases n - j,
        {
            vals.push(self.fields[j].value().to_owned());
            j += 1;
        }
        assert forall|k: int| 0 <= k < n implies (#[trigger] vals@[k])@ == old(self)@.fields[k].text by {
            assert(validate_step(old(self)@.fields[k], Ok(()), self@.fields[k]));
        }
        Some(FormEvent::Submitted(vals))
    }

    /// Sends the key to the focused field and reacts to what it reports: Enter submits the
    /// form when every field validates, Esc cancels, Tab moves the focus on after the field
    /// validates (reporting the blurred value), Shift+Tab moves it back.
    pub fn handle_key(&mut self, key: &Key) -> (r: Option<FormEvent>)
        requires
            form_key_allowed(old(self)@, *key),
        ensures
            form_key_step(old(self)@, *key, r, final(self)@),
            focus_ok(final(self)@),
    {
        proof {
            use_type_invariant(&*self);
        }
        let n = self.fields.len();
        if n == 0 {
            return None;
        }
        let f = self.focused_field;
        let event = self.fields[f].handle_key(key);
        let ghost mid = self@;
        proof {
            assert(self.fields@ == old(self).fields@.update(f as int, self.fields@[f as int]));
            assert(mid.fields =~= old(self)@.fields.update(f as int, self@.fields[f as int]));
            assert(mid == with_field(old(self)@, f as int, self@.fields[f as int]));
        }
        let r = match event {
            FormFieldEvent::Submitted(_) => self.submit(),
            FormFieldEvent::Cancelled => Some(FormEvent::Cancelled),
            FormFieldEvent::Next => {
                self.focused_field = (f + 1) % n;
                None
            },
            FormFieldEvent::Previous => {
                self.focused_field = if f == 0 {
                    n - 1
                } else {
                    f - 1
                };
                None
            },
            FormFieldEvent::Blurred(val) => {
                self.focused_field = (f + 1) % n;
                Some(FormEvent::FieldBlurred { field_index: f, value: val })
            },
            FormFieldEvent::Changed => None,
        };
        proof {
            use_type_invariant(&*self);
        }
        r
    }

    /// The title.
    pub fn title(&self) -> (s: &str)
        ensures
            s@ == self@.title,
    {
        self.title.as_str()
    }

    /// The form-level error, if any.
    pub fn form_error(&self) -> (e: Option<&str>)
        ensures
            match e {
                Some(s) => self@.form_error == Some(s@),
                None => self@.form_error is None,
            },
    {
        match &self.form_error {
            Some(e) => Some(e.as_str()),
            None => None,
        }
    }

    /// The fields, in order.
    pub fn fields(&self) -> (v: &Vec<FormField>)
        ensures
            v@.map_values(|f: FormField| f@) == self@.fields,
            focus_ok(self@),
    {
        proof {
            use_type_invariant(self);
        }
        &self.fields
    }
}

} // verus!
