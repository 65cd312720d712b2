//! The violation taxonomy and its human-readable rendering.

use vstd::prelude::*;
use vstd::string::StringExecFns;

verus! {

/// A violation found by one rule. A closed set of kinds, each carrying the
/// offending measured value, except [`DriverError::WithoutLicence`], which
/// has no payload. Equality is structural.
#[derive(Copy, Clone, Debug, PartialEq, Eq, Structural)]
pub enum DriverError {
    /// Blood alcohol above the allowed level; the measured concentration,
    /// in hundredths of a gram per litre.
    AboveAllowedAlcoholLevel(u32),
    /// Age below the required age; the measured age in whole years.
    UnderRequiredAge(u8),
    /// No licence at all.
    WithoutLicence,
    /// The licence expired before the reference date; its expiration instant,
    /// seconds since the Unix epoch.
    LicenceExpired(i64),
}

/// The decimal digit character for `d`.
pub open spec fn spec_digit_char(d: nat) -> char {
    if d == 0 {
        '0'
    } else if d == 1 {
        '1'
    } else if d == 2 {
        '2'
    } else if d == 3 {
        '3'
    } else if d == 4 {
        '4'
    } else if d == 5 {
        '5'
    } else if d == 6 {
        '6'
    } else if d == 7 {
        '7'
    } else if d == 8 {
        '8'
    } else {
        '9'
    }
}

/// The decimal rendering of `n`: most significant digit first, no sign,
/// no leading zeros (a lone `0` for zero).
pub open spec fn spec_dec(n: nat) -> Seq<char>
    decreases n,
{
    if n < 10 {
        seq![spec_digit_char(n)]
    } else {
        spec_dec(n / 10).push(spec_digit_char(n % 10))
    }
}

/// An alcohol concentration `v`, counted in hundredths of a gram per litre,
/// rendered in grams per litre with exactly two decimal places.
pub open spec fn spec_alcohol_display(v: nat) -> Seq<char> {
    spec_dec(v / 100) + seq!['.', spec_digit_char((v % 100) / 10), spec_digit_char(v % 10)]
}

/// The rendering chrono gives a Unix timestamp of `t` seconds, shown as a
/// UTC calendar date and time.
pub uninterp spec fn utc_display_of(t: int) -> Seq<char>;

impl DriverError {
    /// The human-readable message for this violation.
    pub open spec fn spec_message(self) -> Seq<char> {
        match self {
            DriverError::AboveAllowedAlcoholLevel(v) => "Alcohol level is: "@
                + spec_alcohol_display(v as nat) + " grams/lt"@,
            DriverError::UnderRequiredAge(a) => "Age is: "@ + spec_dec(a as nat) + " years"@,
            DriverError::WithoutLicence => "Without licence"@,
            DriverError::LicenceExpired(t) => "Licence expired on date: "@ + utc_display_of(
                t as int,
            ),
        }
    }

    /// Renders this violation for display to an end user.
    pub fn message(&self) -> (r: String)
        ensures
            r@ == self.spec_message(),
    {
        match self {
            DriverError::AboveAllowedAlcoholLevel(v) => {
                let mut s = String::from_str("Alcohol level is: ");
                push_alcohol(&mut s, *v);
                s.append(" grams/lt");
                s
            },
            DriverError::UnderRequiredAge(a) => {
                let mut s = String::from_str("Age is: ");
                push_dec(&mut s, *a as u32);
                s.append(" years");
                s
            },
            DriverError::WithoutLicence => String::from_str("Without licence"),
            DriverError::LicenceExpired(t) => {
                let mut s = String::from_str("Licence expired on date: ");
                let date = format_utc_timestamp(*t);
                s.append(date.as_str());
                s
            },
        }
    }
}

/// The one-character string for the decimal digit `d`.
fn digit_str(d: u32) -> (r: &'static str)
    requires
        d < 10,
    ensures
        r@ == seq![spec_digit_char(d as nat)],
{
    let r: &'static str = match d {
        0 => "0",
        1 => "1",
        2 => "2",
        3 => "3",
        4 => "4",
        5 => "5",
        6 => "6",
        7 => "7",
        8 => "8",
        _ => "9",
    };
    proof {
        reveal_strlit("0");
        reveal_strlit("1");
        reveal_strlit("2");
        reveal_strlit("3");
        reveal_strlit("4");
        reveal_strlit("5");
        reveal_strlit("6");
        reveal_strlit("7");
        reveal_strlit("8");
        reveal_strlit("9");
        assert(r@ =~= seq![spec_digit_char(d as nat)]);
    }
    r
}

/// Appends the decimal rendering of `n` to `s`.
fn push_dec(s: &mut String, n: u32)
    ensures
        final(s)@ == old(s)@ + spec_dec(n as nat),
    decreases n,
{
    if n < 10 {
        s.append(digit_str(n));
        proof {
            assert(s@ =~= old(s)@ + spec_dec(n as nat));
        }
    } else {
        push_dec(s, n / 10);
        s.append(digit_str(n % 10));
        proof {
            assert(s@ =~= old(s)@ + spec_dec(n as nat));
        }
    }
}

/// Appends the two-decimal grams-per-litre rendering of `v`, counted in
/// hundredths of a gram per litre, to `s`.
fn push_alcohol(s: &mut String, v: u32)
    ensures
        final(s)@ == old(s)@ + spec_alcohol_display(v as nat),
{
    push_dec(s, v / 100);
    s.append(".");
    s.append(digit_str((v % 100) / 10));
    s.append(digit_str(v % 10));
    proof {
        reveal_strlit(".");
        assert(s@ =~= old(s)@ + spec_alcohol_display(v as nat));
    }
}

/// Relies on `chrono::DateTime::<Utc>::from_timestamp` and on chrono's
/// `Display` for `DateTime<Utc>`: both depend on the timestamp value alone,
/// so the rendering is a function of `t`, named `utc_display_of`. A
/// timestamp that chrono cannot represent is rendered as its plain decimal
/// seconds, which keeps the result well-defined for every `t`.
#[verifier::external_body]
fn format_utc_timestamp(t: i64) -> (r: String)
    ensures
        r@ == utc_display_of(t as int),
{
    match chrono::DateTime::<chrono::Utc>::from_timestamp(t, 0) {
        Some(date) => date.to_string(),
        None => t.to_string(),
    }
}

} // verus!
