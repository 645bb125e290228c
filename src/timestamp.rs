//! Points in time, as sent in date filters.
use vstd::prelude::*;

verus! {

/// The text that chrono's `Display` gives for the UTC instant `seconds` after
/// the Unix epoch plus `nanos` nanoseconds.
pub uninterp spec fn utc_text_of(seconds: int, nanos: int) -> Seq<char>;

/// Relies on chrono's `DateTime::<Utc>::from_timestamp`, which is `None` for an
/// instant out of its range or an invalid nanosecond part, and on its `Display`.
#[verifier::external_body]
fn utc_display(seconds: i64, nanos: u32) -> (r: Option<String>)
    ensures
        r matches Some(t) ==> t@ == utc_text_of(seconds as int, nanos as int),
{
    match chrono::DateTime::from_timestamp(seconds, nanos) {
        Some(d) => Some(d.to_string()),
        None => None,
    }
}

/// An instant in UTC: seconds since the Unix epoch and a nanosecond part,
/// with the text that date filters carry.
#[derive(Debug)]
pub struct UtcDateTime {
    seconds: i64,
    nanos: u32,
    text: String,
}

impl View for UtcDateTime {
    type V = (int, int);

    closed spec fn view(&self) -> (int, int) {
        (self.seconds as int, self.nanos as int)
    }
}

impl Clone for UtcDateTime {
    fn clone(&self) -> (r: Self)
        ensures
            r@ == self@,
    {
        proof {
            use_type_invariant(self);
        }
        UtcDateTime { seconds: self.seconds, nanos: self.nanos, text: self.text.clone() }
    }
}

impl UtcDateTime {
    #[verifier::type_invariant]
    spec fn wf(&self) -> bool {
        self.text@ == utc_text_of(self.seconds as int, self.nanos as int)
    }

    /// The instant `seconds` after the epoch plus `nanos` nanoseconds; `None`
    /// where chrono has no such instant.
    pub fn from_timestamp(seconds: i64, nanos: u32) -> (r: Option<UtcDateTime>)
        ensures
            r matches Some(d) ==> d@ == (seconds as int, nanos as int),
    {
        match utc_display(seconds, nanos) {
            Some(text) => Some(UtcDateTime { seconds, nanos, text }),
            None => None,
        }
    }

    pub fn seconds(&self) -> (r: i64)
        ensures
            r as int == self@.0,
    {
        self.seconds
    }

    pub fn nanos(&self) -> (r: u32)
        ensures
            r as int == self@.1,
    {
        self.nanos
    }

    /// The text of this instant in a date filter.
    pub fn text(&self) -> (r: String)
        ensures
            r@ == utc_text_of(self@.0, self@.1),
    {
        proof {
            use_type_invariant(self);
        }
        self.text.clone()
    }
}

} // verus!
