//! The logical components of a time string that diagnostics can refer to.

use vstd::prelude::*;

verus! {

/// Which logical component of a time string a diagnostic is about.
///
/// `Overall` stands for the whole input rather than a single field.
#[derive(Clone, Copy, Debug, PartialEq, Eq, Structural)]
pub enum Field {
    Overall,
    Hour,
    Minute,
    Second,
    Meridiem,
}

/// The display name of a field, as it appears in diagnostics.
pub open spec fn spec_field_name(f: Field) -> Seq<char> {
    match f {
        Field::Overall => "overall"@,
        Field::Hour => "hour"@,
        Field::Minute => "minute"@,
        Field::Second => "second"@,
        Field::Meridiem => "am/pm"@,
    }
}

impl Field {
    /// The display name of this field ("hour", "am/pm", ...).
    pub fn name(&self) -> (r: &'static str)
        ensures
            r@ == spec_field_name(*self),
    {
        match self {
            Field::Overall => "overall",
            Field::Hour => "hour",
            Field::Minute => "minute",
            Field::Second => "second",
            Field::Meridiem => "am/pm",
        }
    }
}

} // verus!
