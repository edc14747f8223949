//! The field extractor: matching a free-form input against the permissive
//! clock-string grammar and splitting it into labeled spans.
//!
//! The grammar, in the order the fields appear:
//!
//! - hour: an optional `-`, then one or more digits (required);
//! - minute: `:`, then an optional `-` and zero or more digits;
//! - second: `:`, then an optional `-` and zero or more digits;
//! - meridiem: at most one whitespace character, then all remaining text,
//!   captured whenever that text is non-empty.
//!
//! The extractor decides shape only: captured substrings may still be
//! numerically or semantically invalid, which the resolver judges later.

use vstd::prelude::*;
use vstd::string::StrSliceExecFns;

use crate::error::ErrorView;
use crate::error::TimeParseError;
use crate::field::Field;
use crate::num::is_digit_char;
use crate::section::SectionView;
use crate::section::StringSection;

verus! {

/// Does `c` count as separating whitespace before the meridiem marker?
pub open spec fn is_space_char(c: char) -> bool {
    c == ' ' || c == '\t' || c == '\n' || c == '\r' || c == '\u{000c}'
}

/// The first position at or after `i` that does not hold a digit.
pub open spec fn digit_run_end(s: Seq<char>, i: int) -> int
    decreases s.len() - i,
{
    if 0 <= i < s.len() && is_digit_char(s[i]) {
        digit_run_end(s, i + 1)
    } else {
        i
    }
}

/// `digit_run_end` stays within bounds, covers only digits, and stops at
/// the first non-digit.
pub proof fn lemma_digit_run_end(s: Seq<char>, i: int)
    requires
        0 <= i <= s.len(),
    ensures
        i <= digit_run_end(s, i) <= s.len(),
        forall|k: int| i <= k < digit_run_end(s, i) ==> is_digit_char(s[k]),
        digit_run_end(s, i) == s.len() || !is_digit_char(s[digit_run_end(s, i)]),
    decreases s.len() - i,
{
    if i < s.len() && is_digit_char(s[i]) {
        lemma_digit_run_end(s, i + 1);
    }
}

/// `digit_run_end` is the unique position bounding a digit run.
pub proof fn lemma_digit_run_end_is(s: Seq<char>, i: int, j: int)
    requires
        0 <= i <= j <= s.len(),
        forall|k: int| i <= k < j ==> is_digit_char(s[k]),
        j == s.len() || !is_digit_char(s[j]),
    ensures
        digit_run_end(s, i) == j,
    decreases j - i,
{
    if i < j {
        lemma_digit_run_end_is(s, i + 1, j);
    }
}

/// The end of a numeric capture starting at `start`: an optional `-`,
/// then the maximal digit run.
pub open spec fn spec_num_tail_end(s: Seq<char>, start: int) -> int {
    if start < s.len() && s[start] == '-' {
        digit_run_end(s, start + 1)
    } else {
        digit_run_end(s, start)
    }
}

/// Where the hour capture's digits begin: past a leading `-` if present.
pub open spec fn spec_hour_start(s: Seq<char>) -> int {
    if s.len() > 0 && s[0] == '-' {
        1
    } else {
        0
    }
}

/// Where the hour capture ends.
pub open spec fn spec_hour_end(s: Seq<char>) -> int {
    spec_num_tail_end(s, 0)
}

/// Did the input begin with an hour capture (at least one leading digit,
/// past an optional sign)?
pub open spec fn spec_hour_matched(s: Seq<char>) -> bool {
    spec_hour_end(s) > spec_hour_start(s)
}

/// The minute capture's span, present exactly when a `:` follows the hour.
pub open spec fn spec_minute_span(s: Seq<char>) -> Option<(int, int)> {
    let he = spec_hour_end(s);
    if he < s.len() && s[he] == ':' {
        Some((he + 1, spec_num_tail_end(s, he + 1)))
    } else {
        None
    }
}

/// The position right after the minute capture, or after the hour if no
/// minute was captured.
pub open spec fn spec_after_minute(s: Seq<char>) -> int {
    match spec_minute_span(s) {
        Some(sp) => sp.1,
        None => spec_hour_end(s),
    }
}

/// The second capture's span, present exactly when a further `:` follows.
pub open spec fn spec_second_span(s: Seq<char>) -> Option<(int, int)> {
    let i = spec_after_minute(s);
    if i < s.len() && s[i] == ':' {
        Some((i + 1, spec_num_tail_end(s, i + 1)))
    } else {
        None
    }
}

/// The position right after the second capture, or after the earlier
/// fields if no second was captured.
pub open spec fn spec_after_second(s: Seq<char>) -> int {
    match spec_second_span(s) {
        Some(sp) => sp.1,
        None => spec_after_minute(s),
    }
}

/// The meridiem capture's span: past at most one whitespace character, all
/// remaining text, present exactly when that text is non-empty.
pub open spec fn spec_meridiem_span(s: Seq<char>) -> Option<(int, int)> {
    let i = spec_after_second(s);
    let j = if i < s.len() && is_space_char(s[i]) {
        i + 1
    } else {
        i
    };
    if j < s.len() {
        Some((j, s.len() as int))
    } else {
        None
    }
}

/// The labeled spans of all four fields.
pub struct FieldsView {
    pub hour: (int, int),
    pub minute: Option<(int, int)>,
    pub second: Option<(int, int)>,
    pub meridiem: Option<(int, int)>,
}

/// What extraction finds on `s` when the hour matches.
pub open spec fn spec_fields(s: Seq<char>) -> FieldsView {
    FieldsView {
        hour: (0, spec_hour_end(s)),
        minute: spec_minute_span(s),
        second: spec_second_span(s),
        meridiem: spec_meridiem_span(s),
    }
}

/// Every captured span lies within an input of length `n`.
pub open spec fn fields_wf(fv: FieldsView, n: int) -> bool {
    &&& 0 <= fv.hour.0 <= fv.hour.1 <= n
    &&& match fv.minute {
        Some(sp) => 0 <= sp.0 <= sp.1 <= n,
        None => true,
    }
    &&& match fv.second {
        Some(sp) => 0 <= sp.0 <= sp.1 <= n,
        None => true,
    }
    &&& match fv.meridiem {
        Some(sp) => 0 <= sp.0 <= sp.1 <= n,
        None => true,
    }
}

/// A numeric capture's end stays within the input.
pub proof fn lemma_num_tail_end(s: Seq<char>, start: int)
    requires
        0 <= start <= s.len(),
    ensures
        start <= spec_num_tail_end(s, start) <= s.len(),
{
    if start < s.len() && s[start] == '-' {
        lemma_digit_run_end(s, start + 1);
    } else {
        lemma_digit_run_end(s, start);
    }
}

/// The spans that extraction assigns always lie within the input.
pub proof fn lemma_spec_fields_wf(s: Seq<char>)
    ensures
        fields_wf(spec_fields(s), s.len() as int),
{
    lemma_num_tail_end(s, 0);
    if spec_minute_span(s) is Some {
        lemma_num_tail_end(s, spec_hour_end(s) + 1);
    }
    if spec_second_span(s) is Some {
        lemma_num_tail_end(s, spec_after_minute(s) + 1);
    }
}

/// The extraction result: the hour capture's span (always present) and the
/// optional minute, second and meridiem spans, as half-open ranges of
/// character offsets into the input.
pub struct ParsedFields {
    pub hour: (usize, usize),
    pub minute: Option<(usize, usize)>,
    pub second: Option<(usize, usize)>,
    pub meridiem: Option<(usize, usize)>,
}

impl View for ParsedFields {
    type V = FieldsView;

    open spec fn view(&self) -> FieldsView {
        FieldsView {
            hour: (self.hour.0 as int, self.hour.1 as int),
            minute: match self.minute {
                Some(sp) => Some((sp.0 as int, sp.1 as int)),
                None => None,
            },
            second: match self.second {
                Some(sp) => Some((sp.0 as int, sp.1 as int)),
                None => None,
            },
            meridiem: match self.meridiem {
                Some(sp) => Some((sp.0 as int, sp.1 as int)),
                None => None,
            },
        }
    }
}

/// Is the character at `j` a digit?
fn char_at_is_digit(s: &str, j: usize) -> (r: bool)
    requires
        j < s@.len(),
    ensures
        r == is_digit_char(s@[j as int]),
{
    let u = s.get_char(j) as u32;
    48 <= u && u <= 57
}

/// Walk to the end of the digit run starting at `from`.
fn digit_run_end_exec(s: &str, from: usize, n: usize) -> (j: usize)
    requires
        n == s@.len(),
        from <= n,
    ensures
        j as int == digit_run_end(s@, from as int),
        from <= j <= n,
{
    let mut j: usize = from;
    while j < n && char_at_is_digit(s, j)
        invariant
            from <= j <= n,
            n == s@.len(),
            digit_run_end(s@, from as int) == digit_run_end(s@, j as int),
        decreases n - j,
    {
        j = j + 1;
    }
    j
}

/// Walk to the end of a numeric capture starting at `start`: an optional
/// `-`, then the maximal digit run.
fn num_tail_end_exec(s: &str, start: usize, n: usize) -> (j: usize)
    requires
        n == s@.len(),
        start <= n,
    ensures
        j as int == spec_num_tail_end(s@, start as int),
        start <= j <= n,
{
    if start < n && s.get_char(start) == '-' {
        let j = digit_run_end_exec(s, start + 1, n);
        proof {
            lemma_digit_run_end(s@, start as int + 1);
        }
        j
    } else {
        digit_run_end_exec(s, start, n)
    }
}

/// Is the character at `j` separating whitespace?
fn char_at_is_space(s: &str, j: usize) -> (r: bool)
    requires
        j < s@.len(),
    ensures
        r == is_space_char(s@[j as int]),
{
    let c = s.get_char(j);
    c == ' ' || c == '\t' || c == '\n' || c == '\r' || c == '\u{000c}'
}

/// Match `s` against the grammar and split it into labeled spans.
///
/// Fails only on an empty input or when no hour capture exists; everything
/// else is a successful shape-match whose captures the resolver judges.
pub fn extract(s: &str) -> (r: Result<ParsedFields, TimeParseError>)
    ensures
        match r {
            Ok(pf) => s@.len() > 0 && spec_hour_matched(s@) && pf@ == spec_fields(s@),
            Err(e) => {
                ||| (s@.len() == 0 && e@ == ErrorView::IncompleteField(
                    Field::Overall,
                    SectionView { text: s@, start: 0, end: 0 },
                ))
                ||| (s@.len() > 0 && !spec_hour_matched(s@) && e@ == ErrorView::InvalidFormat(
                    Field::Overall,
                    SectionView { text: s@, start: 0, end: s@.len() as int },
                ))
            },
        },
{
    let n = s.unicode_len();
    if n == 0 {
        return Err(TimeParseError::IncompleteField(Field::Overall, StringSection::new(s, 0..0)));
    }
    let hour_digits_from: usize = if s.get_char(0) == '-' {
        1
    } else {
        0
    };
    let hour_end = num_tail_end_exec(s, 0, n);
    if hour_end <= hour_digits_from {
        return Err(TimeParseError::InvalidFormat(Field::Overall, StringSection::new(s, 0..n)));
    }
    let minute: Option<(usize, usize)> = if hour_end < n && s.get_char(hour_end) == ':' {
        Some((hour_end + 1, num_tail_end_exec(s, hour_end + 1, n)))
    } else {
        None
    };
    let after_minute = match minute {
        Some(sp) => sp.1,
        None => hour_end,
    };
    let second: Option<(usize, usize)> = if after_minute < n && s.get_char(after_minute) == ':' {
        Some((after_minute + 1, num_tail_end_exec(s, after_minute + 1, n)))
    } else {
        None
    };
    let after_second = match second {
        Some(sp) => sp.1,
        None => after_minute,
    };
    let rest_from = if after_second < n && char_at_is_space(s, after_second) {
        after_second + 1
    } else {
        after_second
    };
    let meridiem: Option<(usize, usize)> = if rest_from < n {
        Some((rest_from, n))
    } else {
        None
    };
    Ok(ParsedFields { hour: (0, hour_end), minute, second, meridiem })
}

} // verus!
