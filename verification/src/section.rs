//! A reference to a contiguous slice of an original input string.

use vstd::prelude::*;
use vstd::string::StringExecFns;

verus! {

/// The mathematical content of a [`StringSection`]: the full input text as a
/// character sequence together with a half-open range `[start, end)` of
/// character offsets into it.
pub struct SectionView {
    pub text: Seq<char>,
    pub start: int,
    pub end: int,
}

impl SectionView {
    /// The section invariant: the range lies within the text.
    pub open spec fn wf(self) -> bool {
        0 <= self.start <= self.end <= self.text.len()
    }

    /// The slice of the original text that the section points at.
    pub open spec fn slice(self) -> Seq<char>
        recommends
            self.wf(),
    {
        self.text.subrange(self.start, self.end)
    }
}

/// A contiguous slice of an original input string: a copy of the full input
/// text plus a half-open range `[start, end)` of character offsets
/// identifying the slice of interest.
///
/// Invariant: `0 <= start <= end <= text.len()`, established by the
/// constructor and never changed afterwards.
#[derive(Debug)]
pub struct StringSection {
    text: String,
    start: usize,
    end: usize,
}

impl View for StringSection {
    type V = SectionView;

    closed spec fn view(&self) -> SectionView {
        SectionView { text: self.text@, start: self.start as int, end: self.end as int }
    }
}

impl StringSection {
    /// The section invariant, kept by every value of the type: the range
    /// lies within the owned text.
    #[verifier::type_invariant]
    pub open spec fn inv(self) -> bool {
        self@.wf()
    }

    /// Build a section over a copy of `s` covering `range`.
    pub fn new(s: &str, range: core::ops::Range<usize>) -> (r: StringSection)
        requires
            range.start <= range.end <= s@.len(),
        ensures
            r@ == (SectionView { text: s@, start: range.start as int, end: range.end as int }),
            r@.wf(),
    {
        StringSection { text: String::from_str(s), start: range.start, end: range.end }
    }

    /// The half-open range of character offsets this section covers.
    pub fn range(&self) -> (r: core::ops::Range<usize>)
        ensures
            r.start == self@.start,
            r.end == self@.end,
    {
        self.start..self.end
    }

    /// The full original input text the section refers to.
    pub fn text(&self) -> (r: &str)
        ensures
            r@ == self@.text,
    {
        self.text.as_str()
    }
}

} // verus!
