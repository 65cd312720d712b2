//! The driver entity and its licence.

use vstd::prelude::*;

verus! {

/// The category tag of a driving licence; a fixed, closed set.
#[derive(Copy, Clone, Debug, PartialEq, Eq, Structural)]
pub enum LicenceType {
    A,
    A1,
    B,
    C,
    D,
    BE,
    CE,
    DE,
}

/// A driving licence: a category tag and an expiration instant, kept as a
/// Unix timestamp in seconds.
#[derive(Copy, Clone, Debug, PartialEq, Eq, Structural)]
pub struct Licence {
    pub licence_type: LicenceType,
    /// Expiration instant, seconds since the Unix epoch.
    pub expiration: i64,
}

impl Licence {
    /// The licence is valid as of `date` when it expires then or later:
    /// the exact expiration instant still counts as valid.
    pub fn is_valid_in_date(&self, date: i64) -> (r: bool)
        ensures
            r == (self.expiration >= date),
    {
        self.expiration >= date
    }
}

/// The subject entity. No invariant is enforced structurally; validity is
/// entirely rule-defined.
pub struct Driver {
    /// Age in whole years.
    pub age: u8,
    /// Blood alcohol concentration, in hundredths of a gram per litre.
    pub alcohol_in_blood: u32,
    pub licence: Option<Licence>,
}

} // verus!
