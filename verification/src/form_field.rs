//! A labelled text field of a form, with optional validation.
use vstd::prelude::*;

use crate::key::{Key, KeyCode};
use crate::text::chars_of;
use crate::text_input::{edit, key_allowed, TextInput, TextInputEvent};

verus! {

/// What a key press did to a [`FormField`].
#[derive(Debug, Clone, PartialEq, Eq)]
pub enum FormFieldEvent {
    /// Field value submitted (Enter pressed)
    Submitted(String),
    /// User cancelled out of form (Esc pressed)
    Cancelled,
    /// Focus moved to next field
    Next,
    /// Focus moved to previous field (Shift+Tab pressed)
    Previous,
    /// Field lost focus after passing validation (Tab pressed); carries the value
    Blurred(String),
    /// Anything else: an edit, a cursor move, a key the field ignores, or a Tab whose
    /// validation failed
    Changed,
}

/// A check that the user of a form supplies for a field's value. An implementation states in
/// `verdict` the answer that `check` gives, and `check` is held to it.
pub trait FieldValidator {
    /// The answer the check gives on `value`: `Ok`, or the message to show.
    spec fn verdict(&self, value: Seq<char>) -> Result<(), Seq<char>>;

    /// `Ok` when `value` is acceptable, else the message to show.
    fn check(&self, value: &str) -> (r: Result<(), String>)
        ensures
            result_view(r) == self.verdict(value@),
    ;
}

/// A validator that refuses any value holding the character `ch`, with `message`.
pub struct ForbidChar {
    ch: char,
    message: String,
}

impl ForbidChar {
    /// Refuses values that hold `ch`, answering `message`.
    pub fn new(ch: char, message: String) -> (v: ForbidChar)
        ensures
            v.forbidden() == ch,
            v.message_spec() == message@,
    {
        ForbidChar { ch, message }
    }

    /// The refused character.
    pub closed spec fn forbidden(&self) -> char {
        self.ch
    }

    /// The answer given for a refused value.
    pub closed spec fn message_spec(&self) -> Seq<char> {
        self.message@
    }
}

impl FieldValidator for ForbidChar {
    open spec fn verdict(&self, value: Seq<char>) -> Result<(), Seq<char>> {
        if value.contains(self.forbidden()) {
            Err(self.message_spec())
        } else {
            Ok(())
        }
    }

    fn check(&self, value: &str) -> (r: Result<(), String>) {
        let v = chars_of(value);
        let mut i: usize = 0;
        while i < v.len()
            invariant
                v@ == value@,
                i <= v@.len(),
                forall|k: int| 0 <= k < i ==> v@[k] != self.ch,
            decreases v@.len() - i,
        {
            if v[i] == self.ch {
                return Err(self.message.clone());
            }
            i += 1;
        }
        Ok(())
    }
}

/// The state of a field, as contracts speak of it.
pub struct FormFieldView {
    pub label: Seq<char>,
    pub hint: Option<Seq<char>>,
    pub text: Seq<char>,
    pub cursor: int,
    /// The answers of the field's validator, if it has one.
    pub validator: Option<spec_fn(Seq<char>) -> Result<(), Seq<char>>>,
    pub error: Option<Seq<char>>,
    pub placeholder: Seq<char>,
    pub required: bool,
}

pub struct FormField {
    label: String,
    hint: Option<String>,
    input: TextInput,
    validator: Option<Box<dyn FieldValidator>>,
    error: Option<String>,
    placeholder: String,
    required: bool,
}

/// The characters of an optional string.
pub open spec fn opt_view(s: Option<String>) -> Option<Seq<char>> {
    match s {
        Some(t) => Some(t@),
        None => None,
    }
}

/// The message of a required field left empty.
pub open spec fn required_message(label: Seq<char>) -> Seq<char> {
    label + " is required"@
}

/// `f` with its error replaced.
pub open spec fn with_error(f: FormFieldView, error: Option<Seq<char>>) -> FormFieldView {
    FormFieldView { error, ..f }
}

/// `f` with its text and cursor replaced.
pub open spec fn with_input(f: FormFieldView, text: Seq<char>, cursor: int) -> FormFieldView {
    FormFieldView { text, cursor, ..f }
}

/// The answer of validating `f`: an empty required field fails with its message; otherwise
/// the validator's answer on the text, or success without a validator.
pub open spec fn validation_result(f: FormFieldView) -> Result<(), Seq<char>> {
    if f.required && f.text.len() == 0 {
        Err(required_message(f.label))
    } else {
        match f.validator {
            Some(check) => check(f.text),
            None => Ok(()),
        }
    }
}

/// One validation of `old`, which answered `r` and left the field `new`: `r` is
/// [`validation_result`], and the error shown afterwards is its message, or none.
pub open spec fn validate_step(old: FormFieldView, r: Result<(), Seq<char>>, new: FormFieldView) -> bool {
    &&& r == validation_result(old)
    &&& new == with_error(
        old,
        match r {
            Ok(_) => None,
            Err(e) => Some(e),
        },
    )
}

/// The characters carried by a validation result.
pub open spec fn result_view(r: Result<(), String>) -> Result<(), Seq<char>> {
    match r {
        Ok(_) => Ok(()),
        Err(e) => Err(e@),
    }
}

/// One key press on the field `old`, which reported `e` and left the field `new`.
pub open spec fn field_key_step(old: FormFieldView, key: Key, e: FormFieldEvent, new: FormFieldView) -> bool {
    match key.code {
        KeyCode::BackTab => e == FormFieldEvent::Previous && new == old,
        KeyCode::Tab => exists|r: Result<(), Seq<char>>|
            {
                &&& validate_step(old, r, new)
                &&& match r {
                    Ok(_) => e matches FormFieldEvent::Blurred(v) && v@ == old.text,
                    Err(_) => e == FormFieldEvent::Changed,
                }
            },
        _ => {
            &&& new == with_input(old, edit(old.text, old.cursor, key).0, edit(old.text, old.cursor, key).1)
            &&& match key.code {
                KeyCode::Enter => e matches FormFieldEvent::Submitted(v) && v@ == old.text,
                KeyCode::Esc => e == FormFieldEvent::Cancelled,
                _ => e == FormFieldEvent::Changed,
            }
        },
    }
}

/// Whether the field can take `key` now (see [`key_allowed`]).
pub open spec fn field_key_allowed(f: FormFieldView, key: Key) -> bool {
    key.code != KeyCode::BackTab && key.code != KeyCode::Tab ==> key_allowed(f.text, f.cursor, key)
}

impl View for FormField {
    type V = FormFieldView;

    closed spec fn view(&self) -> FormFieldView {
        FormFieldView {
            label: self.label@,
            hint: opt_view(self.hint),
            text: self.input.text(),
            cursor: self.input.cursor_pos(),
            validator: match self.validator {
                Some(v) => Some(|s: Seq<char>| v.verdict(s)),
                None => None,
            },
            error: opt_view(self.error),
            placeholder: self.placeholder@,
            required: self.required,
        }
    }
}

impl FormField {
    /// A field with a label, a placeholder shown while it is empty, and whether a value is
    /// required; it starts empty, without hint, validator or error.
    pub fn new(label: String, placeholder: String, required: bool) -> (f: FormField)
        ensures
            f@ == (FormFieldView {
                label: label@,
                hint: None,
                text: Seq::empty(),
                cursor: 0,
                validator: None,
                error: None,
                placeholder: placeholder@,
                required,
            }),
    {
        FormField {
            label,
            hint: None,
            input: TextInput::empty(),
            validator: None,
            error: None,
            placeholder,
            required,
        }
    }

    /// The field with a hint shown beside its label.
    pub fn with_hint(self, hint: String) -> (f: FormField)
        ensures
            f@ == (FormFieldView { hint: Some(hint@), ..self@ }),
    {
        FormField { hint: Some(hint), ..self }
    }

    /// The hint, if any.
    pub fn hint(&self) -> (h: Option<&str>)
        ensures
            match h {
                Some(s) => self@.hint == Some(s@),
                None => self@.hint is None,
            },
    {
        match &self.hint {
            Some(h) => Some(h.as_str()),
            None => None,
        }
    }

    /// The field with a validator, run on each validation after the required check.
    pub fn with_validator(self, validator: Box<dyn FieldValidator>) -> (f: FormField)
        ensures
            f@ == (FormFieldView { validator: Some(|s: Seq<char>| validator.verdict(s)), ..self@ }),
    {
        let ghost g = validator;
        let o = Some(validator);
        assert(o == Some(g));
        let f = FormField { validator: o, ..self };
        assert(f@.validator->0 =~= |s: Seq<char>| g.verdict(s));
        f
    }

    /// The field holding `value`, with the cursor at its end.
    pub fn with_value(self, value: String) -> (f: FormField)
        ensures
            f@ == with_input(self@, value@, value@.len() as int),
    {
        FormField { input: TextInput::new(value), ..self }
    }

    /// The label.
    pub fn label(&self) -> (s: &str)
        ensures
            s@ == self@.label,
    {
        self.label.as_str()
    }

    /// The current value.
    pub fn value(&self) -> (s: &str)
        ensures
            s@ == self@.text,
    {
        self.input.value()
    }

    /// Replaces the value (cursor at its end) and clears the error.
    pub fn set_value(&mut self, value: String)
        ensures
            final(self)@ == with_error(with_input(old(self)@, value@, value@.len() as int), None),
    {
        self.input = TextInput::new(value);
        self.error = None;
    }

    /// Replaces the placeholder.
    pub fn set_placeholder(&mut self, placeholder: String)
        ensures
            final(self)@ == (FormFieldView { placeholder: placeholder@, ..old(self)@ }),
    {
        self.placeholder = placeholder;
    }

    /// The error of the last validation, if any.
    pub fn error(&self) -> (e: Option<&str>)
        ensures
            match e {
                Some(s) => self@.error == Some(s@),
                None => self@.error is None,
            },
    {
        match &self.error {
            Some(e) => Some(e.as_str()),
            None => None,
        }
    }

    /// Records the outcome of a validation: its message becomes the error, or the error is
    /// cleared; the outcome is handed back.
    pub fn record_validation(&mut self, outcome: Result<(), String>) -> (r: Result<(), String>)
        ensures
            r == outcome,
            final(self)@ == with_error(
                old(self)@,
                match outcome {
                    Ok(_) => None,
                    Err(e) => Some(e@),
                },
            ),
    {
        match &outcome {
            Ok(_) => {
                self.error = None;
            },
            Err(e) => {
                self.error = Some(e.clone());
            },
        }
        outcome
    }

    /// Checks the value: an empty required field fails with "<label> is required"; otherwise
    /// the validator, if any, decides. The error shown afterwards is the failure's message.
    pub fn validate(&mut self) -> (r: Result<(), String>)
        ensures
            validate_step(old(self)@, result_view(r), final(self)@),
    {
        if self.required && self.input.value().is_empty() {
            let mut err = self.label.clone();
            err.append(" is required");
            let ghost g = err@;
            let r = self.record_validation(Err(err));
            assert(g == required_message(old(self)@.label));
            return r;
        }
        let outcome = match &self.validator {
            Some(v) => v.check(self.input.value()),
            None => Ok(()),
        };
        self.record_validation(outcome)
    }

    /// Clears the error.
    pub fn clear_error(&mut self)
        ensures
            final(self)@ == with_error(old(self)@, None),
    {
        self.error = None;
    }

    /// Shift+Tab reports `Previous`; Tab validates and reports `Blurred` with the value, or
    /// `Changed` when validation fails; other keys go to the text input.
    pub fn handle_key(&mut self, key: &Key) -> (e: FormFieldEvent)
        requires
            field_key_allowed(old(self)@, *key),
        ensures
            field_key_step(old(self)@, *key, e, final(self)@),
    {
        match key.code {
            KeyCode::BackTab => {
                return FormFieldEvent::Previous;
            },
            KeyCode::Tab => {
                let value = self.input.value().to_owned();
                let r = self.validate();
                if r.is_err() {
                    return FormFieldEvent::Changed;
                }
                return FormFieldEvent::Blurred(value);
            },
            _ => {},
        }
        match self.input.handle_key(key) {
            TextInputEvent::Submitted(val) => FormFieldEvent::Submitted(val),
            TextInputEvent::Cancelled => FormFieldEvent::Cancelled,
            TextInputEvent::Changed => FormFieldEvent::Changed,
            TextInputEvent::Ignored => FormFieldEvent::Changed,
        }
    }

    /// The value with a `|` at the cursor.
    pub fn display(&self) -> (s: String)
        ensures
            s@ == self@.text.subrange(0, self@.cursor) + seq!['|'] + self@.text.subrange(
                self@.cursor,
                self@.text.len() as int,
            ),
    {
        self.input.display()
    }

    /// The placeholder.
    pub fn placeholder(&self) -> (s: &str)
        ensures
            s@ == self@.placeholder,
    {
        self.placeholder.as_str()
    }
}

} // verus!
