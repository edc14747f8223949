//! Rendering a [`TimeParseError`] as a multi-line annotated report.
//!
//! The report is anchored to the original input text: a one-line summary
//! naming the field and the failure kind, plus labeled spans underlining
//! the offending substrings, each with a short annotation.  The verified
//! code decides every message, span and note; only the final page layout
//! is delegated to the `ariadne` crate behind one trusted wrapper whose
//! output is a pure function of its arguments.

use vstd::prelude::*;
use vstd::string::StrSliceExecFns;
use vstd::string::StringExecFns;

use crate::error::spec_error_index;
use crate::error::spec_error_text;
use crate::error::ErrorView;
use crate::error::TimeParseError;
use crate::field::spec_field_name;
use crate::field::Field;

verus! {

/// The decimal digit character for `d`.
pub open spec fn spec_digit_char(d: int) -> char {
    if d == 0 {
        '0'
    } else if d == 1 {
        '1'
    } else if d == 2 {
        '2'
    } else if d == 3 {
        '3'
    } else if d == 4 {
        '4'
    } else if d == 5 {
        '5'
    } else if d == 6 {
        '6'
    } else if d == 7 {
        '7'
    } else if d == 8 {
        '8'
    } else {
        '9'
    }
}

/// The decimal rendering of `n`, most significant digit first, no sign
/// and no leading zero.
pub open spec fn spec_decimal(n: nat) -> Seq<char>
    decreases n,
{
    if n < 10 {
        seq![spec_digit_char(n as int)]
    } else {
        spec_decimal(n / 10) + seq![spec_digit_char((n % 10) as int)]
    }
}

/// The single-character string for the digit `d`.
fn digit_str(d: u32) -> (r: &'static str)
    requires
        d < 10,
    ensures
        r@ == seq![spec_digit_char(d as int)],
{
    let r: &'static str = match d {
        0 => "0",
        1 => "1",
        2 => "2",
        3 => "3",
        4 => "4",
        5 => "5",
        6 => "6",
        7 => "7",
        8 => "8",
        _ => "9",
    };
    proof {
        reveal_strlit("0");
        reveal_strlit("1");
        reveal_strlit("2");
        reveal_strlit("3");
        reveal_strlit("4");
        reveal_strlit("5");
        reveal_strlit("6");
        reveal_strlit("7");
        reveal_strlit("8");
        reveal_strlit("9");
        assert(r@ =~= seq![spec_digit_char(d as int)]);
    }
    r
}

/// Render `x` in decimal.
fn u32_decimal(x: u32) -> (r: String)
    ensures
        r@ == spec_decimal(x as nat),
    decreases x,
{
    if x < 10 {
        String::from_str(digit_str(x))
    } else {
        let mut r = u32_decimal(x / 10);
        r.append(digit_str(x % 10));
        r
    }
}

/// The one-line summary of an error.
pub open spec fn spec_message(e: ErrorView) -> Seq<char> {
    match e {
        ErrorView::IncompleteField(f, _) => if f is Overall {
            "Expected time, instead got empty string"@
        } else {
            spec_field_name(f) + " field is incomplete"@
        },
        ErrorView::OutOfRange(f, _, _) => spec_field_name(f) + " field is out of range"@,
        ErrorView::InvalidFormat(_, _) => "Invalid format"@,
        ErrorView::Overconstrained { .. } => "Time is overconstrained"@,
    }
}

/// The generic note attached to an error, present only for a wholly
/// unparseable input.
pub open spec fn spec_note(e: ErrorView) -> Option<Seq<char>> {
    match e {
        ErrorView::InvalidFormat(f, _) => if f is Overall {
            Some("expected a time"@)
        } else {
            None
        },
        _ => None,
    }
}

/// The labeled spans of an error: each a half-open range of character
/// offsets into the original text with its short annotation.
pub open spec fn spec_labels(e: ErrorView) -> Seq<(int, int, Seq<char>)> {
    match e {
        ErrorView::IncompleteField(f, sec) => if f is Overall {
            Seq::empty()
        } else {
            seq![(sec.start, sec.end, spec_field_name(f) + " is missing"@)]
        },
        ErrorView::OutOfRange(f, sec, b) => seq![
            (
                sec.start,
                sec.end,
                "this is not in the proper range ("@ + spec_decimal(b.lo as nat) + ".."@
                    + spec_decimal(b.hi as nat) + ") for "@ + spec_field_name(f),
            ),
        ],
        ErrorView::InvalidFormat(f, sec) => if f is Overall {
            seq![(sec.start, sec.end, "could not make sense of this"@)]
        } else {
            seq![(sec.start, sec.end, spec_field_name(f) + " has invalid format"@)]
        },
        ErrorView::Overconstrained { hour, meridiem } => seq![
            (hour.start, hour.end, "this is already 24-hour"@),
            (meridiem.start, meridiem.end, "so this is too much information"@),
        ],
    }
}

/// What ariadne's report writer produces for the given text, anchor
/// offset, summary, note and labels, with colors disabled.  The output is
/// a pure function of these inputs and of nothing else.
pub uninterp spec fn rendered_report(
    text: Seq<char>,
    offset: int,
    message: Seq<char>,
    note: Option<Seq<char>>,
    labels: Seq<(int, int, Seq<char>)>,
) -> Seq<char>;

/// The full diagnostic text of an error.
pub open spec fn spec_render(e: ErrorView) -> Seq<char> {
    rendered_report(spec_error_text(e), spec_error_index(e), spec_message(e), spec_note(e), spec_labels(e))
}

/// One labeled span handed to the report writer.
pub struct ReportLabel {
    pub start: usize,
    pub end: usize,
    pub message: String,
}

impl View for ReportLabel {
    type V = (int, int, Seq<char>);

    open spec fn view(&self) -> (int, int, Seq<char>) {
        (self.start as int, self.end as int, self.message@)
    }
}

/// The contents of a label sequence.
pub open spec fn spec_labels_of(labels: Seq<ReportLabel>) -> Seq<(int, int, Seq<char>)> {
    labels.map_values(|l: ReportLabel| l@)
}

/// The note as a character sequence.
pub open spec fn spec_note_of(note: Option<String>) -> Option<Seq<char>> {
    match note {
        Some(n) => Some(n@),
        None => None,
    }
}

/// Relies on ariadne's `Report`: building an error report over `text`
/// anchored at `offset`, with the given summary, optional note and
/// labeled spans, and writing it with colors disabled, produces text that
/// depends on these arguments alone.  `Label::new` panics on a backwards
/// span, hence the bound on each label; offsets past the end of the text
/// are clamped by ariadne itself.
#[verifier::external_body]
fn ariadne_render(
    text: &str,
    offset: usize,
    message: &str,
    note: &Option<String>,
    labels: &Vec<ReportLabel>,
) -> (r: String)
    requires
        forall|i: int| 0 <= i < labels@.len() ==> #[trigger] labels@[i].start <= labels@[i].end,
    ensures
        r@ == rendered_report(
            text@,
            offset as int,
            message@,
            spec_note_of(*note),
            spec_labels_of(labels@),
        ),
{
    let mut b = ariadne::Report::build(ariadne::ReportKind::Error, offset..offset).with_config(
        ariadne::Config::default().with_color(false),
    ).with_message(message);
    for l in labels.iter() {
        b = b.with_label(ariadne::Label::new(l.start..l.end).with_message(&l.message));
    }
    if let Some(n) = note {
        b = b.with_note(n);
    }
    let mut buf: Vec<u8> = Vec::new();
    let _ = b.finish().write(ariadne::Source::from(text), &mut buf);
    String::from_utf8(buf).unwrap_or(String::new())
}

impl TimeParseError {
    /// Render this error as a multi-line annotated report referencing the
    /// original input text.  The same error value always renders to the
    /// same text.
    pub fn render(&self) -> (r: String)
        ensures
            r@ == spec_render(self@),
    {
        let offset = self.index();
        let mut labels: Vec<ReportLabel> = Vec::new();
        let mut note: Option<String> = None;
        let message: String = match self {
            TimeParseError::IncompleteField(f, sec) => match f {
                Field::Overall => String::from_str("Expected time, instead got empty string"),
                _ => {
                    proof {
                        use_type_invariant(&*sec);
                    }
                    let rg = sec.range();
                    let mut lm = String::from_str(f.name());
                    lm.append(" is missing");
                    labels.push(ReportLabel { start: rg.start, end: rg.end, message: lm });
                    let mut m = String::from_str(f.name());
                    m.append(" field is incomplete");
                    m
                },
            },
            TimeParseError::OutOfRange(f, sec, b) => {
                proof {
                    use_type_invariant(&*sec);
                }
                let rg = sec.range();
                let mut lm = String::from_str("this is not in the proper range (");
                lm.append(u32_decimal(b.lo).as_str());
                lm.append("..");
                lm.append(u32_decimal(b.hi).as_str());
                lm.append(") for ");
                lm.append(f.name());
                labels.push(ReportLabel { start: rg.start, end: rg.end, message: lm });
                let mut m = String::from_str(f.name());
                m.append(" field is out of range");
                m
            },
            TimeParseError::InvalidFormat(f, sec) => {
                proof {
                    use_type_invariant(&*sec);
                }
                let rg = sec.range();
                match f {
                    Field::Overall => {
                        note = Some(String::from_str("expected a time"));
                        let lm = String::from_str("could not make sense of this");
                        labels.push(ReportLabel { start: rg.start, end: rg.end, message: lm });
                    },
                    _ => {
                        let mut lm = String::from_str(f.name());
                        lm.append(" has invalid format");
                        labels.push(ReportLabel { start: rg.start, end: rg.end, message: lm });
                    },
                }
                String::from_str("Invalid format")
            },
            TimeParseError::Overconstrained { hour, meridiem } => {
                proof {
                    use_type_invariant(&*hour);
                    use_type_invariant(&*meridiem);
                }
                let hrg = hour.range();
                let mrg = meridiem.range();
                labels.push(
                    ReportLabel {
                        start: hrg.start,
                        end: hrg.end,
                        message: String::from_str("this is already 24-hour"),
                    },
                );
                labels.push(
                    ReportLabel {
                        start: mrg.start,
                        end: mrg.end,
                        message: String::from_str("so this is too much information"),
                    },
                );
                String::from_str("Time is overconstrained")
            },
        };
        proof {
            assert(message@ == spec_message(self@));
            assert(spec_note_of(note) == spec_note(self@));
            assert(spec_labels_of(labels@) =~= spec_labels(self@));
        }
        ariadne_render(self.text(), offset, message.as_str(), &note, &labels)
    }
}

} // verus!
