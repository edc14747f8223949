//! Reading a captured substring as an unsigned integer.
//!
//! A capture is either empty, contains a non-digit character (a leading
//! minus sign falls under this), names a value too large for `u32`, or
//! names a `u32` value.  The four cases are told apart exactly, because
//! each maps to a different diagnostic.

use vstd::prelude::*;
use vstd::string::StrSliceExecFns;

verus! {

/// Does `c` stand for a decimal digit?
pub open spec fn is_digit_char(c: char) -> bool {
    48 <= c as u32 <= 57
}

/// The numeric value of a single digit character (0 for a non-digit).
pub open spec fn digit_val(c: char) -> nat {
    if is_digit_char(c) {
        (c as u32 - 48) as nat
    } else {
        0
    }
}

/// Every character of `t` is a decimal digit.
pub open spec fn all_digits(t: Seq<char>) -> bool {
    forall|k: int| 0 <= k < t.len() ==> is_digit_char(t[k])
}

/// The numeric value of a digit string, most significant digit first.
pub open spec fn digits_value(t: Seq<char>) -> nat
    decreases t.len(),
{
    if t.len() == 0 {
        0
    } else {
        digits_value(t.drop_last()) * 10 + digit_val(t.last())
    }
}

/// What a capture looks like as a number.
pub enum NumOutcome {
    /// The capture is a digit string naming this `u32` value.
    Value(u32),
    /// The capture is empty.
    Empty,
    /// The capture holds a character that is not a decimal digit.
    NotNumeric,
    /// The capture is a digit string whose value does not fit in `u32`.
    TooBig,
}

/// The exact classification of a capture as a number.
pub open spec fn num_class(t: Seq<char>) -> NumOutcome {
    if t.len() == 0 {
        NumOutcome::Empty
    } else if !all_digits(t) {
        NumOutcome::NotNumeric
    } else if digits_value(t) > u32::MAX {
        NumOutcome::TooBig
    } else {
        NumOutcome::Value(digits_value(t) as u32)
    }
}

/// Extending a digit string on the right can only grow its value.
proof fn lemma_digits_value_prefix_le(t: Seq<char>, k: int)
    requires
        0 <= k <= t.len(),
    ensures
        digits_value(t.subrange(0, k)) <= digits_value(t),
    decreases t.len() - k,
{
    if k == t.len() {
        assert(t.subrange(0, k) =~= t);
    } else {
        assert(t.subrange(0, k + 1).drop_last() =~= t.subrange(0, k));
        assert(t.subrange(0, k + 1).last() == t[k]);
        assert(digits_value(t.subrange(0, k + 1)) == digits_value(t.subrange(0, k)) * 10
            + digit_val(t[k]));
        lemma_digits_value_prefix_le(t, k + 1);
    }
}

/// Classify the characters of `s` at `[start, end)` as a number.
pub fn scan_number(s: &str, start: usize, end: usize) -> (r: NumOutcome)
    requires
        start <= end <= s@.len(),
    ensures
        r == num_class(s@.subrange(start as int, end as int)),
{
    let ghost t = s@.subrange(start as int, end as int);
    if start == end {
        return NumOutcome::Empty;
    }
    let mut k: usize = start;
    while k < end
        invariant
            start <= k <= end <= s@.len(),
            t == s@.subrange(start as int, end as int),
            forall|j: int| start <= j < k ==> is_digit_char(s@[j]),
        decreases end - k,
    {
        let c = s.get_char(k);
        let u = c as u32;
        if u < 48 || u > 57 {
            assert(!is_digit_char(t[k - start as int]));
            return NumOutcome::NotNumeric;
        }
        k = k + 1;
    }
    assert forall|j: int| 0 <= j < t.len() implies is_digit_char(t[j]) by {
        assert(t[j] == s@[start as int + j]);
    }
    let mut acc: u32 = 0;
    k = start;
    while k < end
        invariant
            start <= k <= end <= s@.len(),
            t == s@.subrange(start as int, end as int),
            all_digits(t),
            acc == digits_value(t.subrange(0, k - start as int)),
        decreases end - k,
    {
        let c = s.get_char(k);
        proof {
            assert(t[k - start as int] == s@[k as int]);
            assert(is_digit_char(c));
        }
        let d = c as u32 - 48;
        let wide: u64 = acc as u64 * 10 + d as u64;
        proof {
            assert(t.subrange(0, k + 1 - start as int).drop_last() =~= t.subrange(
                0,
                k - start as int,
            ));
            assert(t.subrange(0, k + 1 - start as int).last() == t[k - start as int]);
            assert(t[k - start as int] == s@[k as int]);
        }
        if wide > u32::MAX as u64 {
            proof {
                lemma_digits_value_prefix_le(t, k + 1 - start as int);
            }
            return NumOutcome::TooBig;
        }
        acc = wide as u32;
        k = k + 1;
    }
    assert(t.subrange(0, t.len() as int) =~= t);
    NumOutcome::Value(acc)
}

} // verus!
