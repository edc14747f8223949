//! The laws the parser obeys, stated and proved once and for all inputs.

use vstd::prelude::*;

use crate::error::spec_error_text;
use crate::error::spec_error_wf;
use crate::error::ErrorView;
use crate::error::TimeParseError;
use crate::num::all_digits;
use crate::num::digits_value;
use crate::num::is_digit_char;
use crate::parse::is_am_token;
use crate::parse::is_pm_token;
use crate::parse::parse_result;
use crate::parse::Time;
use crate::render::spec_render;
use crate::scan::is_space_char;
use crate::scan::lemma_digit_run_end_is;
use crate::scan::lemma_spec_fields_wf;
use crate::scan::spec_after_minute;
use crate::scan::spec_after_second;
use crate::scan::spec_hour_end;
use crate::scan::spec_hour_matched;
use crate::scan::spec_meridiem_span;
use crate::scan::spec_minute_span;
use crate::scan::spec_second_span;

verus! {

/// Rendering is deterministic: one and the same error value always
/// renders to byte-identical diagnostic text.
pub proof fn lemma_render_deterministic(e: TimeParseError, r1: Seq<char>, r2: Seq<char>)
    requires
        r1 == spec_render(e@),
        r2 == spec_render(e@),
    ensures
        r1 == r2,
{
}

/// Every error the parser returns is anchored to the original input:
/// each of its sections carries the input itself as text and a span that
/// lies within it, so the span's slice is exactly the substring that
/// triggered the error.
pub proof fn lemma_parse_error_sections_wf(s: Seq<char>)
    ensures
        match parse_result(s) {
            Ok(_) => true,
            Err(e) => spec_error_wf(e) && spec_error_text(e) == s,
        },
{
    if s.len() > 0 && spec_hour_matched(s) {
        lemma_spec_fields_wf(s);
    }
}

/// The textual form of a well-formed clock string: the hour digits, then
/// `:` and the minute digits if present, then `:` and the second digits
/// if present, then an optional single space and the meridiem token if
/// present.
pub open spec fn valid_input(
    hd: Seq<char>,
    md: Option<Seq<char>>,
    sd: Option<Seq<char>>,
    mer: Option<(bool, Seq<char>)>,
) -> Seq<char> {
    hd + (match md {
        Some(t) => seq![':'] + t,
        None => Seq::empty(),
    }) + (match sd {
        Some(t) => seq![':'] + t,
        None => Seq::empty(),
    }) + (match mer {
        Some((sp, t)) => (if sp {
            seq![' ']
        } else {
            Seq::empty()
        }) + t,
        None => Seq::empty(),
    })
}

/// The hour a well-formed clock string spells: the hour digits' value,
/// plus twelve for a "pm" marker unless that value is already twelve.
pub open spec fn expected_hour(hd: Seq<char>, mer: Option<(bool, Seq<char>)>) -> nat {
    let h = digits_value(hd);
    match mer {
        Some((_, t)) => if is_pm_token(t) && h != 12 {
            (h + 12) as nat
        } else {
            h
        },
        None => h,
    }
}

/// The value a possibly omitted digit field spells, an omitted one
/// spelling zero.
pub open spec fn expected_part(d: Option<Seq<char>>) -> nat {
    match d {
        Some(t) => digits_value(t),
        None => 0,
    }
}

/// Every well-formed clock string parses, and to the very time it
/// spells: an in-range hour, optional in-range minute and second digits,
/// and an optional case-insensitive meridiem marker (with the hour at
/// most twelve beside a marker, and after at most one space) yield
/// exactly the spelled hour, minute and second, "pm" adding twelve hours
/// except at twelve.
pub proof fn lemma_valid_inputs_parse(
    hd: Seq<char>,
    md: Option<Seq<char>>,
    sd: Option<Seq<char>>,
    mer: Option<(bool, Seq<char>)>,
)
    requires
        all_digits(hd),
        1 <= hd.len(),
        digits_value(hd) < 24,
        match md {
            Some(t) => all_digits(t) && 1 <= t.len() && digits_value(t) < 60,
            None => true,
        },
        match sd {
            Some(t) => all_digits(t) && 1 <= t.len() && digits_value(t) < 60,
            None => true,
        },
        sd is Some ==> md is Some,
        match mer {
            Some((sp, t)) => (is_am_token(t) || is_pm_token(t)) && digits_value(hd) <= 12,
            None => true,
        },
    ensures
        parse_result(valid_input(hd, md, sd, mer)) == Ok::<Time, ErrorView>(
            Time {
                hour: expected_hour(hd, mer) as u8,
                minute: expected_part(md) as u8,
                second: expected_part(sd) as u8,
            },
        ),
{
    let m_part = match md {
        Some(t) => seq![':'] + t,
        None => Seq::<char>::empty(),
    };
    let s_part = match sd {
        Some(t) => seq![':'] + t,
        None => Seq::<char>::empty(),
    };
    let mer_part = match mer {
        Some((sp, t)) => (if sp {
            seq![' ']
        } else {
            Seq::<char>::empty()
        }) + t,
        None => Seq::<char>::empty(),
    };
    let s = valid_input(hd, md, sd, mer);
    assert(s == hd + m_part + s_part + mer_part);
    let n0 = hd.len() as int;
    let n1 = n0 + m_part.len() as int;
    let n2 = n1 + s_part.len() as int;
    let n3 = n2 + mer_part.len() as int;
    assert(s.len() == n3);
    assert forall|i: int| 0 <= i < n0 implies s[i] == hd[i] by {}
    assert forall|i: int| n0 <= i < n1 implies s[i] == m_part[i - n0] by {}
    assert forall|i: int| n1 <= i < n2 implies s[i] == s_part[i - n1] by {}
    assert forall|i: int| n2 <= i < n3 implies s[i] == mer_part[i - n2] by {}
    // The first character after a digit run is never a digit: it is a
    // colon, a space, or the first letter of the meridiem token.
    assert(match mer {
        Some((sp, t)) => !is_digit_char(mer_part[0]) && mer_part.len() > 0,
        None => mer_part.len() == 0,
    });
    assert(match md {
        Some(t) => m_part[0] == ':' && !is_digit_char(m_part[0]),
        None => m_part.len() == 0,
    });
    assert(match sd {
        Some(t) => s_part[0] == ':' && !is_digit_char(s_part[0]),
        None => s_part.len() == 0,
    });
    // The hour capture is exactly the hour digits.
    assert(is_digit_char(s[0]) && s[0] != '-');
    assert(n0 == s.len() || !is_digit_char(s[n0]));
    lemma_digit_run_end_is(s, 0, n0);
    assert(spec_hour_end(s) == n0);
    assert(spec_hour_matched(s));
    // The minute capture is exactly the minute digits, if any.
    if let Some(t) = md {
        assert(s[n0] == ':');
        assert(is_digit_char(s[n0 + 1]));
        assert(n1 == s.len() || !is_digit_char(s[n1]));
        assert forall|k: int| n0 + 1 <= k < n1 implies is_digit_char(s[k]) by {
            assert(s[k] == m_part[k - n0]);
            assert(m_part[k - n0] == t[k - n0 - 1]);
        }
        lemma_digit_run_end_is(s, n0 + 1, n1);
        assert(spec_minute_span(s) == Some((n0 + 1, n1)));
        assert(s.subrange(n0 + 1, n1) =~= t);
    } else {
        assert(n0 == s.len() || s[n0] != ':');
        assert(spec_minute_span(s) is None);
    }
    assert(spec_after_minute(s) == n1);
    // The second capture is exactly the second digits, if any.
    if let Some(t) = sd {
        assert(s[n1] == ':');
        assert(is_digit_char(s[n1 + 1]));
        assert(n2 == s.len() || !is_digit_char(s[n2]));
        assert forall|k: int| n1 + 1 <= k < n2 implies is_digit_char(s[k]) by {
            assert(s[k] == s_part[k - n1]);
        }
        lemma_digit_run_end_is(s, n1 + 1, n2);
        assert(spec_second_span(s) == Some((n1 + 1, n2)));
        assert(s.subrange(n1 + 1, n2) =~= t);
    } else {
        assert(n1 == s.len() || s[n1] != ':');
        assert(spec_second_span(s) is None);
    }
    assert(spec_after_second(s) == n2);
    // The meridiem capture is exactly the token, past at most one space.
    if let Some((sp, t)) = mer {
        let j = if sp {
            n2 + 1
        } else {
            n2
        };
        if sp {
            assert(s[n2] == ' ' && is_space_char(s[n2]));
        } else {
            assert(s[n2] == t[0]);
            assert(!is_space_char(s[n2]));
        }
        assert(spec_meridiem_span(s) == Some((j, n3)));
        assert(s.subrange(j, n3) =~= t);
    } else {
        assert(n2 == n3);
        assert(spec_meridiem_span(s) is None);
    }
    // Resolution: every field is a digit string inside its bound.
    assert(s.subrange(0, n0) =~= hd);
    lemma_spec_fields_wf(s);
}

} // verus!

