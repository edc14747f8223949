//! The structured error taxonomy for failed parses.
//!
//! Every failure is a value of [`TimeParseError`], carrying the field it is
//! about and the span of the original input that triggered it.  Rendering a
//! value as a human-readable report is a separate, pure step.

use vstd::prelude::*;

use crate::field::Field;
use crate::section::{SectionView, StringSection};

verus! {

/// The allowed half-open interval `[lo, hi)` for a numeric field, carried
/// inside an out-of-range error so the diagnostic can show the bound.
#[derive(Clone, Copy, Debug, PartialEq, Eq, Structural)]
pub struct FieldRange {
    pub lo: u32,
    pub hi: u32,
}

/// The mathematical content of a [`TimeParseError`]: the same tagged union
/// with every section replaced by its [`SectionView`].
pub enum ErrorView {
    IncompleteField(Field, SectionView),
    OutOfRange(Field, SectionView, FieldRange),
    InvalidFormat(Field, SectionView),
    Overconstrained { hour: SectionView, meridiem: SectionView },
}

/// Why a parse failed, and where.
///
/// - `IncompleteField`: a required or referenced field's text is empty.
/// - `OutOfRange`: a numeric field parsed but falls outside its bound.
/// - `InvalidFormat`: text is not shaped like the expected kind.
/// - `Overconstrained`: an hour above 12 together with an explicit
///   am/pm marker.
#[derive(Debug)]
pub enum TimeParseError {
    IncompleteField(Field, StringSection),
    OutOfRange(Field, StringSection, FieldRange),
    InvalidFormat(Field, StringSection),
    Overconstrained { hour: StringSection, meridiem: StringSection },
}

impl View for TimeParseError {
    type V = ErrorView;

    open spec fn view(&self) -> ErrorView {
        match self {
            TimeParseError::IncompleteField(f, sec) => ErrorView::IncompleteField(*f, sec@),
            TimeParseError::OutOfRange(f, sec, b) => ErrorView::OutOfRange(*f, sec@, *b),
            TimeParseError::InvalidFormat(f, sec) => ErrorView::InvalidFormat(*f, sec@),
            TimeParseError::Overconstrained { hour, meridiem } => ErrorView::Overconstrained {
                hour: hour@,
                meridiem: meridiem@,
            },
        }
    }
}

/// The original input text an error refers to.
pub open spec fn spec_error_text(e: ErrorView) -> Seq<char> {
    match e {
        ErrorView::IncompleteField(_, sec) => sec.text,
        ErrorView::OutOfRange(_, sec, _) => sec.text,
        ErrorView::InvalidFormat(_, sec) => sec.text,
        ErrorView::Overconstrained { hour, meridiem: _ } => hour.text,
    }
}

/// The offset at which an error's report is anchored.
pub open spec fn spec_error_index(e: ErrorView) -> int {
    match e {
        ErrorView::IncompleteField(_, sec) => sec.start,
        ErrorView::OutOfRange(_, sec, _) => sec.start,
        ErrorView::InvalidFormat(_, sec) => sec.start,
        ErrorView::Overconstrained { hour: _, meridiem } => meridiem.start,
    }
}

/// Every section inside the error satisfies the section invariant over the
/// same original text.
pub open spec fn spec_error_wf(e: ErrorView) -> bool {
    match e {
        ErrorView::IncompleteField(_, sec) => sec.wf(),
        ErrorView::OutOfRange(_, sec, _) => sec.wf(),
        ErrorView::InvalidFormat(_, sec) => sec.wf(),
        ErrorView::Overconstrained { hour, meridiem } => hour.wf() && meridiem.wf()
            && hour.text == meridiem.text,
    }
}

impl TimeParseError {
    /// The original input text this error refers to.
    pub fn text(&self) -> (r: &str)
        ensures
            r@ == spec_error_text(self@),
    {
        match self {
            TimeParseError::IncompleteField(_, sec) => sec.text(),
            TimeParseError::OutOfRange(_, sec, _) => sec.text(),
            TimeParseError::InvalidFormat(_, sec) => sec.text(),
            TimeParseError::Overconstrained { hour, meridiem: _ } => hour.text(),
        }
    }

    /// The offset at which this error's report is anchored.
    pub fn index(&self) -> (r: usize)
        ensures
            r as int == spec_error_index(self@),
    {
        match self {
            TimeParseError::IncompleteField(_, sec) => sec.range().start,
            TimeParseError::OutOfRange(_, sec, _) => sec.range().start,
            TimeParseError::InvalidFormat(_, sec) => sec.range().start,
            TimeParseError::Overconstrained { hour: _, meridiem } => meridiem.range().start,
        }
    }
}

} // verus!
