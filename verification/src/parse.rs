//! The field resolver and the public entry point: validating each captured
//! substring as a bounded integer or meridiem token, combining the fields
//! into a normalized 24-hour time, and detecting semantic conflicts.

use vstd::prelude::*;
use vstd::string::StrSliceExecFns;

use crate::error::ErrorView;
use crate::error::FieldRange;
use crate::error::TimeParseError;
use crate::field::Field;
use crate::num::num_class;
use crate::num::scan_number;
use crate::num::NumOutcome;
use crate::scan::extract;
use crate::scan::fields_wf;
use crate::scan::lemma_spec_fields_wf;
use crate::scan::spec_fields;
use crate::scan::spec_hour_matched;
use crate::scan::FieldsView;
use crate::scan::ParsedFields;
use crate::section::SectionView;
use crate::section::StringSection;

verus! {

/// A normalized time of day: hour in [0,24), minute and second in [0,60).
#[derive(Clone, Copy, Debug, PartialEq, Eq, Structural)]
pub struct Time {
    pub hour: u8,
    pub minute: u8,
    pub second: u8,
}

impl Time {
    /// The normalized-time invariant.
    pub open spec fn wf(self) -> bool {
        self.hour < 24 && self.minute < 60 && self.second < 60
    }

    /// Build a normalized time from its three components.
    pub fn new(hour: u8, minute: u8, second: u8) -> (r: Time)
        requires
            hour < 24,
            minute < 60,
            second < 60,
        ensures
            r == (Time { hour, minute, second }),
            r.wf(),
    {
        Time { hour, minute, second }
    }
}

/// A section view over `s` covering `[start, end)`.
pub open spec fn sect(s: Seq<char>, start: int, end: int) -> SectionView {
    SectionView { text: s, start, end }
}

/// The exact outcome of validating the capture at `[start, end)` of `s` as
/// the numeric field `f` bounded by `[0, hi)`: an empty capture is
/// incomplete, a non-numeric or oversized one has an invalid format, a
/// numeric one outside the bound is out of range, and the rest succeed.
pub open spec fn field_value(s: Seq<char>, f: Field, start: int, end: int, hi: u32) -> Result<
    u32,
    ErrorView,
> {
    match num_class(s.subrange(start, end)) {
        NumOutcome::Empty => Err(ErrorView::IncompleteField(f, sect(s, start, end))),
        NumOutcome::NotNumeric => Err(ErrorView::InvalidFormat(f, sect(s, start, end))),
        NumOutcome::TooBig => Err(ErrorView::InvalidFormat(f, sect(s, start, end))),
        NumOutcome::Value(v) => if v >= hi {
            Err(ErrorView::OutOfRange(f, sect(s, start, end), FieldRange { lo: 0, hi }))
        } else {
            Ok(v)
        },
    }
}

/// Is `t` the meridiem token "am", case-insensitively?
pub open spec fn is_am_token(t: Seq<char>) -> bool {
    t.len() == 2 && (t[0] == 'a' || t[0] == 'A') && (t[1] == 'm' || t[1] == 'M')
}

/// Is `t` the meridiem token "pm", case-insensitively?
pub open spec fn is_pm_token(t: Seq<char>) -> bool {
    t.len() == 2 && (t[0] == 'p' || t[0] == 'P') && (t[1] == 'm' || t[1] == 'M')
}

/// The exact outcome of resolving the extracted fields `fv` of `s`:
/// hour, minute and second are validated in that order (absent minute and
/// second default to 0), then the meridiem token is matched, then an hour
/// above 12 next to an explicit meridiem is rejected as overconstrained,
/// and finally "pm" adds a 12-hour offset unless the hour is already 12.
pub open spec fn resolve_result(s: Seq<char>, fv: FieldsView) -> Result<Time, ErrorView> {
    match field_value(s, Field::Hour, fv.hour.0, fv.hour.1, 24) {
        Err(e) => Err(e),
        Ok(h) => match (match fv.minute {
            Some(sp) => field_value(s, Field::Minute, sp.0, sp.1, 60),
            None => Ok(0u32),
        }) {
            Err(e) => Err(e),
            Ok(m) => match (match fv.second {
                Some(sp) => field_value(s, Field::Second, sp.0, sp.1, 60),
                None => Ok(0u32),
            }) {
                Err(e) => Err(e),
                Ok(sec) => match fv.meridiem {
                    None => Ok(Time { hour: h as u8, minute: m as u8, second: sec as u8 }),
                    Some(sp) => {
                        let t = s.subrange(sp.0, sp.1);
                        if !is_am_token(t) && !is_pm_token(t) {
                            Err(ErrorView::InvalidFormat(Field::Meridiem, sect(s, sp.0, sp.1)))
                        } else if h > 12 {
                            Err(
                                ErrorView::Overconstrained {
                                    hour: sect(s, fv.hour.0, fv.hour.1),
                                    meridiem: sect(s, sp.0, sp.1),
                                },
                            )
                        } else {
                            let off: u32 = if is_pm_token(t) && h != 12 {
                                12
                            } else {
                                0
                            };
                            Ok(
                                Time {
                                    hour: (h + off) as u8,
                                    minute: m as u8,
                                    second: sec as u8,
                                },
                            )
                        }
                    },
                },
            },
        },
    }
}

/// The exact outcome of parsing `s` as a time of day: an empty input is
/// incomplete, an input without a leading hour capture has an invalid
/// format, and everything else is extracted and resolved.
pub open spec fn parse_result(s: Seq<char>) -> Result<Time, ErrorView> {
    if s.len() == 0 {
        Err(ErrorView::IncompleteField(Field::Overall, sect(s, 0, 0)))
    } else if !spec_hour_matched(s) {
        Err(ErrorView::InvalidFormat(Field::Overall, sect(s, 0, s.len() as int)))
    } else {
        resolve_result(s, spec_fields(s))
    }
}

/// Validate one numeric capture against its bound, building the matching
/// diagnostic on failure.
fn parse_field(s: &str, field: Field, hi: u32, start: usize, end: usize) -> (r: Result<
    u32,
    TimeParseError,
>)
    requires
        start <= end <= s@.len(),
    ensures
        match r {
            Ok(v) => field_value(s@, field, start as int, end as int, hi) == Ok::<
                u32,
                ErrorView,
            >(v),
            Err(e) => field_value(s@, field, start as int, end as int, hi) == Err::<
                u32,
                ErrorView,
            >(e@),
        },
{
    match scan_number(s, start, end) {
        NumOutcome::Empty => Err(
            TimeParseError::IncompleteField(field, StringSection::new(s, start..end)),
        ),
        NumOutcome::NotNumeric => Err(
            TimeParseError::InvalidFormat(field, StringSection::new(s, start..end)),
        ),
        NumOutcome::TooBig => Err(
            TimeParseError::InvalidFormat(field, StringSection::new(s, start..end)),
        ),
        NumOutcome::Value(v) => {
            if v >= hi {
                Err(
                    TimeParseError::OutOfRange(
                        field,
                        StringSection::new(s, start..end),
                        FieldRange { lo: 0, hi },
                    ),
                )
            } else {
                Ok(v)
            }
        },
    }
}

/// How a meridiem capture reads.
enum MeridiemKind {
    Am,
    Pm,
    Other,
}

/// Match the capture at `[start, end)` of `s` as a meridiem token.
fn meridiem_kind(s: &str, start: usize, end: usize) -> (r: MeridiemKind)
    requires
        start <= end <= s@.len(),
    ensures
        r is Am <==> is_am_token(s@.subrange(start as int, end as int)),
        r is Pm <==> is_pm_token(s@.subrange(start as int, end as int)),
{
    let ghost t = s@.subrange(start as int, end as int);
    if end - start == 2 {
        let c0 = s.get_char(start);
        let c1 = s.get_char(start + 1);
        proof {
            assert(t[0] == s@[start as int]);
            assert(t[1] == s@[start as int + 1]);
        }
        if (c0 == 'a' || c0 == 'A') && (c1 == 'm' || c1 == 'M') {
            MeridiemKind::Am
        } else if (c0 == 'p' || c0 == 'P') && (c1 == 'm' || c1 == 'M') {
            MeridiemKind::Pm
        } else {
            MeridiemKind::Other
        }
    } else {
        MeridiemKind::Other
    }
}

/// Resolve the extracted fields of `s` into a normalized time.
fn resolve(s: &str, pf: &ParsedFields) -> (r: Result<Time, TimeParseError>)
    requires
        fields_wf(pf@, s@.len() as int),
    ensures
        match r {
            Ok(t) => resolve_result(s@, pf@) == Ok::<Time, ErrorView>(t) && t.wf(),
            Err(e) => resolve_result(s@, pf@) == Err::<Time, ErrorView>(e@),
        },
{
    let hour = match parse_field(s, Field::Hour, 24, pf.hour.0, pf.hour.1) {
        Ok(v) => v,
        Err(e) => {
            return Err(e);
        },
    };
    let minute = match pf.minute {
        Some(sp) => match parse_field(s, Field::Minute, 60, sp.0, sp.1) {
            Ok(v) => v,
            Err(e) => {
                return Err(e);
            },
        },
        None => 0,
    };
    let second = match pf.second {
        Some(sp) => match parse_field(s, Field::Second, 60, sp.0, sp.1) {
            Ok(v) => v,
            Err(e) => {
                return Err(e);
            },
        },
        None => 0,
    };
    match pf.meridiem {
        None => Ok(Time { hour: hour as u8, minute: minute as u8, second: second as u8 }),
        Some(sp) => {
            let kind = meridiem_kind(s, sp.0, sp.1);
            if let MeridiemKind::Other = kind {
                return Err(
                    TimeParseError::InvalidFormat(Field::Meridiem, StringSection::new(s, sp.0..sp.1)),
                );
            }
            if hour > 12 {
                return Err(
                    TimeParseError::Overconstrained {
                        hour: StringSection::new(s, pf.hour.0..pf.hour.1),
                        meridiem: StringSection::new(s, sp.0..sp.1),
                    },
                );
            }
            let off: u32 = if let MeridiemKind::Pm = kind {
                if hour != 12 {
                    12
                } else {
                    0
                }
            } else {
                0
            };
            Ok(Time { hour: (hour + off) as u8, minute: minute as u8, second: second as u8 })
        },
    }
}

/// Parse a free-form clock string into a normalized 24-hour time.
///
/// Accepted shapes are an hour, `hour:minute`, or `hour:minute:second`,
/// each digit run optionally zero-padded, optionally followed by at most
/// one whitespace character and a case-insensitive "am"/"pm" marker.
/// Omitted minutes and seconds are taken as zero; an hour without a marker
/// is read as 24-hour time.  Any failure comes back as a
/// [`TimeParseError`] anchored to the offending span of `s`.
pub fn opinionated_time_parsing(s: &str) -> (r: Result<Time, TimeParseError>)
    ensures
        match r {
            Ok(t) => parse_result(s@) == Ok::<Time, ErrorView>(t) && t.wf(),
            Err(e) => parse_result(s@) == Err::<Time, ErrorView>(e@),
        },
{
    let pf = match extract(s) {
        Ok(pf) => pf,
        Err(e) => {
            return Err(e);
        },
    };
    proof {
        lemma_spec_fields_wf(s@);
    }
    resolve(s, &pf)
}

} // verus!
