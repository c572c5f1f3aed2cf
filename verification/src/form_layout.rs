//! Where and how a form is drawn: the modal's area and the styled lines inside it.
use vstd::prelude::*;

use crate::form::{Form, FormView};
use crate::form_field::FormField;
use crate::form_field::FormFieldView;

verus! {

/// The colours the form uses.
#[derive(Debug, Clone, Copy, PartialEq, Eq, Structural)]
pub enum LineColor {
    White,
    DarkGray,
    Red,
    Yellow,
    /// No colour of its own: the terminal's default.
    Plain,
}

/// One line of the form: its row and its coloured pieces of text.
#[derive(Debug, Clone)]
pub struct FormLine {
    pub y: u16,
    pub spans: Vec<(String, LineColor)>,
}

/// A line as contracts speak of it.
pub struct LineView {
    pub y: int,
    pub spans: Seq<(Seq<char>, LineColor)>,
}

/// The help text at the bottom of a form.
pub open spec fn help_text() -> Seq<char> {
    "Tab/Shift+Tab: navigate  |  Enter: submit  |  Esc: cancel"@
}

/// The centred area of a modal `width_percent` of the terminal wide (at least 40 columns,
/// at most the terminal) and `desired_height` high (at most the terminal): (x, y, w, h).
pub open spec fn modal_area_spec(tw: int, th: int, width_percent: int, desired_height: int) -> (int, int, int, int) {
    let w0 = tw * width_percent / 100;
    let w1 = if w0 < 40 {
        40
    } else {
        w0
    };
    let w = if w1 < tw {
        w1
    } else {
        tw
    };
    let h = if desired_height < th {
        desired_height
    } else {
        th
    };
    ((tw - w) / 2, (th - h) / 2, w, h)
}

/// The centred area of a modal (see [`modal_area_spec`]).
pub fn calculate_modal_area(terminal_width: u16, terminal_height: u16, width_percent: u16, desired_height: u16) -> (r: (u16, u16, u16, u16))
    requires
        terminal_width * width_percent <= u16::MAX,
    ensures
        (r.0 as int, r.1 as int, r.2 as int, r.3 as int) == modal_area_spec(
            terminal_width as int,
            terminal_height as int,
            width_percent as int,
            desired_height as int,
        ),
{
    let w0 = terminal_width * width_percent / 100;
    let w1 = if w0 < 40 {
        40
    } else {
        w0
    };
    let width = if w1 < terminal_width {
        w1
    } else {
        terminal_width
    };
    let height = if desired_height < terminal_height {
        desired_height
    } else {
        terminal_height
    };
    let x = (terminal_width - width) / 2;
    let y = (terminal_height - height) / 2;
    (x, y, width, height)
}

/// Whether the field shows its placeholder: it is empty and has one.
pub open spec fn shows_placeholder(f: FormFieldView) -> bool {
    f.text.len() == 0 && f.placeholder.len() > 0
}

/// The input line of a field: the placeholder while it shows, else the value (with the
/// cursor when focused), indented by two spaces.
pub open spec fn input_text(f: FormFieldView, focused: bool) -> Seq<char> {
    "  "@ + if shows_placeholder(f) {
        f.placeholder
    } else if focused {
        f.text.subrange(0, f.cursor) + seq!['|'] + f.text.subrange(f.cursor, f.text.len() as int)
    } else {
        f.text
    }
}

/// The colour of a field's input line: red with an error, grey for a placeholder, yellow
/// when focused, else white.
pub open spec fn input_color(f: FormFieldView, focused: bool) -> LineColor {
    if f.error is Some {
        LineColor::Red
    } else if shows_placeholder(f) {
        LineColor::DarkGray
    } else if focused {
        LineColor::Yellow
    } else {
        LineColor::White
    }
}

/// The label line of a field: `> ` when focused (else two spaces), the label and `: ` in
/// white, then the hint in grey.
pub open spec fn label_spans(f: FormFieldView, focused: bool) -> Seq<(Seq<char>, LineColor)> {
    let base = (if focused {
        "> "@
    } else {
        "  "@
    }) + f.label + ": "@;
    match f.hint {
        Some(h) => seq![(base, LineColor::White), (h, LineColor::DarkGray)],
        None => seq![(base, LineColor::White)],
    }
}

/// The lines of one field starting at row `y`: label, input and, with an error, the error.
pub open spec fn field_lines(f: FormFieldView, focused: bool, y: int) -> Seq<LineView> {
    let two = seq![
        LineView { y, spans: label_spans(f, focused) },
        LineView { y: y + 1, spans: seq![(input_text(f, focused), input_color(f, focused))] },
    ];
    match f.error {
        Some(e) => two.push(LineView { y: y + 2, spans: seq![("  "@ + e, LineColor::Red)] }),
        None => two,
    }
}

/// Rows a field takes.
pub open spec fn field_height(f: FormFieldView) -> int {
    if f.error is Some {
        3
    } else {
        2
    }
}

/// The lines of fields `i..` starting at row `y`, stopping before a field that starts at or
/// past `limit`; and the row after them.
pub open spec fn fields_lines(fields: Seq<FormFieldView>, focused: int, i: int, y: int, limit: int) -> (Seq<LineView>, int)
    decreases fields.len() - i,
{
    if i >= fields.len() || i < 0 || y >= limit {
        (Seq::empty(), y)
    } else {
        let rest = fields_lines(fields, focused, i + 1, y + field_height(fields[i]), limit);
        (field_lines(fields[i], i == focused, y) + rest.0, rest.1)
    }
}

/// The lines of the form inside the area starting at row `top`, `height` rows high: the
/// form error, the fields that fit (a field is drawn only if it starts above the last two
/// rows), and the help text on the last row when rows remain.
pub open spec fn form_lines(f: FormView, top: int, height: int) -> Seq<LineView> {
    let limit = top + if height >= 2 {
        height - 2
    } else {
        0
    };
    let error_lines = match f.form_error {
        Some(e) => seq![LineView { y: top, spans: seq![("Error: "@ + e, LineColor::Red)] }],
        None => Seq::empty(),
    };
    let y0 = if f.form_error is Some {
        top + 2
    } else {
        top
    };
    let fl = fields_lines(f.fields, f.focused, 0, y0, limit);
    let help = if fl.1 < top + height {
        seq![
            LineView {
                y: top + if height >= 1 {
                    height - 1
                } else {
                    0
                },
                spans: seq![(help_text(), LineColor::DarkGray)],
            },
        ]
    } else {
        Seq::empty()
    };
    error_lines + fl.0 + help
}

/// The view of a line.
pub open spec fn line_view(l: FormLine) -> LineView {
    LineView { y: l.y as int, spans: l.spans@.map_values(|s: (String, LineColor)| (s.0@, s.1)) }
}

/// The views of lines.
pub open spec fn lines_view(ls: Seq<FormLine>) -> Seq<LineView> {
    ls.map_values(|l: FormLine| line_view(l))
}


/// A line of one coloured piece of text.
fn one_span_line(y: u16, text: String, color: LineColor) -> (l: FormLine)
    ensures
        line_view(l) == (LineView { y: y as int, spans: seq![(text@, color)] }),
{
    let mut spans: Vec<(String, LineColor)> = Vec::new();
    spans.push((text, color));
    let l = FormLine { y, spans };
    assert(line_view(l).spans =~= seq![(text@, color)]);
    l
}

/// `prefix` followed by `s`.
fn prefixed(prefix: &str, s: &str) -> (r: String)
    ensures
        r@ == prefix@ + s@,
{
    let mut r = String::from_str(prefix);
    r.append(s);
    r
}

/// The lines of one field (see [`field_lines`]).
fn field_lines_exec(f: &FormField, focused: bool, y: u16) -> (v: Vec<FormLine>)
    requires
        y + 2 <= u16::MAX,
    ensures
        lines_view(v@) == field_lines(f@, focused, y as int),
{
    let mut out: Vec<FormLine> = Vec::new();
    let mut base = String::from_str(if focused {
        "> "
    } else {
        "  "
    });
    base.append(f.label());
    base.append(": ");
    let mut spans: Vec<(String, LineColor)> = Vec::new();
    spans.push((base, LineColor::White));
    match f.hint() {
        Some(h) => {
            spans.push((String::from_str(h), LineColor::DarkGray));
        },
        None => {},
    }
    let label_line = FormLine { y, spans };
    assert(line_view(label_line).spans =~= label_spans(f@, focused));
    out.push(label_line);
    let is_placeholder = f.value().is_empty() && !f.placeholder().is_empty();
    let text = if is_placeholder {
        prefixed("  ", f.placeholder())
    } else if focused {
        let d = f.display();
        prefixed("  ", d.as_str())
    } else {
        prefixed("  ", f.value())
    };
    let color = if f.error().is_some() {
        LineColor::Red
    } else if is_placeholder {
        LineColor::DarkGray
    } else if focused {
        LineColor::Yellow
    } else {
        LineColor::White
    };
    out.push(one_span_line(y + 1, text, color));
    match f.error() {
        Some(e) => {
            out.push(one_span_line(y + 2, prefixed("  ", e), LineColor::Red));
        },
        None => {},
    }
    assert(lines_view(out@) =~= field_lines(f@, focused, y as int));
    out
}

proof fn lemma_fields_lines_bound(fields: Seq<FormFieldView>, focused: int, i: int, y: int, limit: int)
    ensures
        fields_lines(fields, focused, i, y, limit).1 >= y,
        y < limit ==> fields_lines(fields, focused, i, y, limit).1 <= limit + 2,
        y >= limit ==> fields_lines(fields, focused, i, y, limit).1 == y,
    decreases fields.len() - i,
{
    if i >= fields.len() || i < 0 || y >= limit {
    } else {
        lemma_fields_lines_bound(fields, focused, i + 1, y + field_height(fields[i]), limit);
    }
}

impl Form {
    /// The height the form asks for: three rows per field and six more, the number of
    /// fields taken as a `u16` (its value modulo 65536).
    pub fn desired_height(&self) -> (h: u16)
        requires
            (self@.fields.len() % 0x10000) * 3 + 6 <= u16::MAX,
        ensures
            h == (self@.fields.len() % 0x10000) * 3 + 6,
    {
        let n = self.fields().len();
        assert(n == self@.fields.len());
        assert((n as u16) == n % 0x10000) by (bit_vector);
        let m = #[verifier::truncate] (n as u16);
        m * 3 + 6
    }

    /// The lines of the form inside the area whose first row is `top` and that is `height`
    /// rows high (see [`form_lines`]).
    pub fn layout(&self, top: u16, height: u16) -> (v: Vec<FormLine>)
        requires
            top + height <= u16::MAX,
            self@.form_error is Some ==> top + 2 <= u16::MAX,
        ensures
            lines_view(v@) == form_lines(self@, top as int, height as int),
    {
        let fields = self.fields();
        let ghost fv = self@.fields;
        let focused = self.focused_field();
        let n = fields.len();
        let limit: u16 = top + if height >= 2 {
            height - 2
        } else {
            0
        };
        let mut out: Vec<FormLine> = Vec::new();
        let mut y: u16 = top;
        match self.form_error() {
            Some(e) => {
                out.push(one_span_line(top, prefixed("Error: ", e), LineColor::Red));
                y = top + 2;
            },
            None => {},
        }
        let ghost error_lines = lines_view(out@);
        let ghost y0 = y as int;
        let ghost total = fields_lines(fv, focused as int, 0, y0, limit as int);
        proof {
            lemma_fields_lines_bound(fv, focused as int, 0, y0, limit as int);
        }
        let mut i: usize = 0;
        while i < n && y < limit
            invariant
                n == fv.len(),
                fields@.map_values(|f: FormField| f@) == fv,
                i <= n,
                top <= y,
                (y as int) < (limit as int) ==> y as int + 3 <= u16::MAX,
                lines_view(out@) + fields_lines(fv, focused as int, i as int, y as int, limit as int).0
                    == error_lines + total.0,
                fields_lines(fv, focused as int, i as int, y as int, limit as int).1 == total.1,
                limit as int == top + if height >= 2 { height - 2 } else { 0 },
                top + height <= u16::MAX,
            decreases n - i,
        {
            let f = &fields[i];
            assert(f@ == fv[i as int]);
            let lines = field_lines_exec(f, i == focused, y);
            let ghost before = out@;
            let mut lines_mut = lines;
            let ghost ls = lines_mut@;
            out.append(&mut lines_mut);
            proof {
                assert(lines_view(out@) =~= lines_view(before) + lines_view(ls));
                lemma_fields_lines_bound(fv, focused as int, i + 1, y + field_height(fv[i as int]), limit as int);
            }
            y = if f.error().is_some() {
                y + 3
            } else {
                y + 2
            };
            i += 1;
        }
        let ghost after = out@;
        proof {
            assert(fields_lines(fv, focused as int, i as int, y as int, limit as int).0 =~= Seq::<LineView>::empty());
            assert(lines_view(after) =~= error_lines + total.0);
            assert(total.1 == y);
            let spec_err = match self@.form_error {
                Some(e) => seq![LineView { y: top as int, spans: seq![("Error: "@ + e, LineColor::Red)] }],
                None => Seq::<LineView>::empty(),
            };
            assert(error_lines =~= spec_err);
        }
        if y < top + height {
            let help_y = top + if height >= 1 {
                height - 1
            } else {
                0
            };
            out.push(one_span_line(help_y, String::from_str("Tab/Shift+Tab: navigate  |  Enter: submit  |  Esc: cancel"), LineColor::DarkGray));
        }
        proof {
            assert(lines_view(out@) =~= form_lines(self@, top as int, height as int));
        }
        out
    }
}

} // verus!
