//! Instants in UTC and their textual forms.

use vstd::prelude::*;
use vstd::string::*;

verus! {

/// The text that chrono's `Display` gives for the UTC instant `secs` seconds and
/// `nanos` nanoseconds after the Unix epoch, or `None` where chrono has no such
/// instant.
pub uninterp spec fn chrono_utc_text(secs: i64, nanos: u32) -> Option<Seq<char>>;

/// Calls `chrono::DateTime::<Utc>::from_timestamp` and, where it gives an instant,
/// renders it with chrono's `Display`. Claimed: the outcome depends on the two
/// arguments alone; what the text is, and where chrono gives `None`, is left to
/// `chrono_utc_text`.
#[verifier::external_body]
fn chrono_display(secs: i64, nanos: u32) -> (r: Option<String>)
    ensures
        r.deep_view() == chrono_utc_text(secs, nanos),
{
    match chrono::DateTime::from_timestamp(secs, nanos) {
        Some(d) => Some(d.to_string()),
        None => None,
    }
}

/// The decimal digits of a natural number, most significant first.
pub open spec fn decimal_digits(n: nat) -> Seq<char>
    decreases n,
{
    let d = (n % 10) as u32;
    let c = char_of_digit(d);
    if n < 10 {
        seq![c]
    } else {
        decimal_digits(n / 10).push(c)
    }
}

/// The character of a decimal digit.
pub open spec fn char_of_digit(d: u32) -> char {
    if d == 0 { '0' }
    else if d == 1 { '1' }
    else if d == 2 { '2' }
    else if d == 3 { '3' }
    else if d == 4 { '4' }
    else if d == 5 { '5' }
    else if d == 6 { '6' }
    else if d == 7 { '7' }
    else if d == 8 { '8' }
    else { '9' }
}

/// The decimal text of an integer, with a leading `-` when it is negative.
pub open spec fn decimal_text(v: int) -> Seq<char> {
    if v < 0 {
        seq!['-'] + decimal_digits((-v) as nat)
    } else {
        decimal_digits(v as nat)
    }
}

/// Calls `i64::to_string`, which std documents as the decimal form of the
/// number, with a leading minus sign for negative numbers.
#[verifier::external_body]
pub(crate) fn i64_text(v: i64) -> (s: String)
    ensures
        s@ == decimal_text(v as int),
{
    v.to_string()
}

/// An instant in UTC, held as the seconds and nanoseconds since the Unix epoch;
/// only instants that chrono can represent are built.
#[derive(Clone, Copy, Debug, PartialEq, Eq, Structural)]
pub struct UtcDateTime {
    secs: i64,
    nanos: u32,
}

impl UtcDateTime {
    #[verifier::type_invariant]
    spec fn representable(self) -> bool {
        chrono_utc_text(self.secs, self.nanos) is Some
    }

    /// Seconds since the Unix epoch.
    pub closed spec fn spec_secs(self) -> i64 {
        self.secs
    }

    /// Nanoseconds past `spec_secs`.
    pub closed spec fn spec_nanos(self) -> u32 {
        self.nanos
    }

    /// The text of this instant.
    pub open spec fn spec_text(self) -> Seq<char> {
        chrono_utc_text(self.spec_secs(), self.spec_nanos())->Some_0
    }

    /// Builds the instant `secs` seconds and `nanos` nanoseconds after the epoch,
    /// or `None` where chrono has no such instant.
    pub fn from_timestamp(secs: i64, nanos: u32) -> (r: Option<UtcDateTime>)
        ensures
            r is Some <==> chrono_utc_text(secs, nanos) is Some,
            r matches Some(d) ==> d.spec_secs() == secs && d.spec_nanos() == nanos,
    {
        match chrono_display(secs, nanos) {
            Some(_) => Some(UtcDateTime { secs, nanos }),
            None => None,
        }
    }

    /// Seconds since the Unix epoch.
    pub fn secs(&self) -> (r: i64)
        ensures
            r == self.spec_secs(),
    {
        self.secs
    }

    /// Nanoseconds past `secs`.
    pub fn nanos(&self) -> (r: u32)
        ensures
            r == self.spec_nanos(),
    {
        self.nanos
    }

    /// The text that chrono displays for this instant.
    pub fn to_text(&self) -> (s: String)
        ensures
            s@ == self.spec_text(),
            chrono_utc_text(self.spec_secs(), self.spec_nanos()) == Some(s@),
    {
        proof {
            use_type_invariant(self);
        }
        match chrono_display(self.secs, self.nanos) {
            Some(s) => s,
            None => String::new(),
        }
    }
}

} // verus!
