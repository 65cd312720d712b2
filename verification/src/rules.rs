//! The rule abstraction and the concrete driver rules.

use vstd::prelude::*;

use crate::driver::Driver;
use crate::errors::DriverError;

verus! {

/// A unit of business logic: inspects one entity and produces either
/// acceptance or exactly one typed error describing the violation.
///
/// `spec_run` is the rule's meaning as a mathematical function of the rule's
/// configuration and the entity; `run` must return exactly that value, so
/// every rule is deterministic, side-effect free, and never mutates the
/// entity it inspects.
pub trait Rule<T, E> {
    /// What the rule decides on `t`.
    spec fn spec_run(&self, t: &T) -> Result<(), E>;

    /// Evaluates the rule against `t`.
    fn run(&self, t: &T) -> (r: Result<(), E>)
        ensures
            r == self.spec_run(t),
    ;
}

/// Fails when the measured blood alcohol is strictly above the allowed
/// level; a measurement exactly at the allowed level passes.
#[derive(Copy, Clone)]
pub struct IsSober {
    /// Highest passing concentration, in hundredths of a gram per litre.
    pub allowed_level: u32,
}

impl Rule<Driver, DriverError> for IsSober {
    open spec fn spec_run(&self, driver: &Driver) -> Result<(), DriverError> {
        if driver.alcohol_in_blood > self.allowed_level {
            Err(DriverError::AboveAllowedAlcoholLevel(driver.alcohol_in_blood))
        } else {
            Ok(())
        }
    }

    fn run(&self, driver: &Driver) -> (r: Result<(), DriverError>) {
        if driver.alcohol_in_blood > self.allowed_level {
            return Err(DriverError::AboveAllowedAlcoholLevel(driver.alcohol_in_blood));
        }
        Ok(())
    }
}

/// Fails when the driver is strictly younger than the required age; being
/// exactly the required age passes.
#[derive(Copy, Clone)]
pub struct HasAge {
    /// Lowest passing age, in whole years.
    pub required_age: u8,
}

impl Rule<Driver, DriverError> for HasAge {
    open spec fn spec_run(&self, driver: &Driver) -> Result<(), DriverError> {
        if driver.age < self.required_age {
            Err(DriverError::UnderRequiredAge(driver.age))
        } else {
            Ok(())
        }
    }

    fn run(&self, driver: &Driver) -> (r: Result<(), DriverError>) {
        if driver.age < self.required_age {
            return Err(DriverError::UnderRequiredAge(driver.age));
        }
        Ok(())
    }
}

/// Fails when the driver holds no licence at all; any licence, of any
/// category and any expiration, passes.
#[derive(Copy, Clone)]
pub struct HasDrivingLicence;

impl Rule<Driver, DriverError> for HasDrivingLicence {
    open spec fn spec_run(&self, driver: &Driver) -> Result<(), DriverError> {
        match driver.licence {
            Some(_) => Ok(()),
            None => Err(DriverError::WithoutLicence),
        }
    }

    fn run(&self, driver: &Driver) -> (r: Result<(), DriverError>) {
        match driver.licence {
            Some(_) => Ok(()),
            None => Err(DriverError::WithoutLicence),
        }
    }
}

/// Fails when the driver holds a licence that expired strictly before the
/// reference date. A licence expiring exactly at the reference date passes,
/// and a driver with no licence passes vacuously: absence of a licence is
/// exclusively [`HasDrivingLicence`]'s concern.
#[derive(Copy, Clone)]
pub struct HasValidDrivingLicence {
    /// The reference date, seconds since the Unix epoch.
    pub date: i64,
}

impl Rule<Driver, DriverError> for HasValidDrivingLicence {
    open spec fn spec_run(&self, driver: &Driver) -> Result<(), DriverError> {
        match driver.licence {
            Some(licence) => if licence.expiration < self.date {
                Err(DriverError::LicenceExpired(licence.expiration))
            } else {
                Ok(())
            },
            None => Ok(()),
        }
    }

    fn run(&self, driver: &Driver) -> (r: Result<(), DriverError>) {
        match driver.licence {
            Some(licence) => {
                if !licence.is_valid_in_date(self.date) {
                    return Err(DriverError::LicenceExpired(licence.expiration));
                }
                Ok(())
            },
            None => Ok(()),
        }
    }
}

/// One of the concrete driver rules, as a plain value: lets a validator hold
/// an ordered, heterogeneous list of rules. Adding a rule kind means adding
/// a variant here and delegating to its `Rule` implementation.
#[derive(Copy, Clone)]
pub enum DriverRule {
    IsSober(IsSober),
    HasAge(HasAge),
    HasDrivingLicence(HasDrivingLicence),
    HasValidDrivingLicence(HasValidDrivingLicence),
}

impl Rule<Driver, DriverError> for DriverRule {
    open spec fn spec_run(&self, driver: &Driver) -> Result<(), DriverError> {
        match self {
            DriverRule::IsSober(rule) => rule.spec_run(driver),
            DriverRule::HasAge(rule) => rule.spec_run(driver),
            DriverRule::HasDrivingLicence(rule) => rule.spec_run(driver),
            DriverRule::HasValidDrivingLicence(rule) => rule.spec_run(driver),
        }
    }

    fn run(&self, driver: &Driver) -> (r: Result<(), DriverError>) {
        match self {
            DriverRule::IsSober(rule) => rule.run(driver),
            DriverRule::HasAge(rule) => rule.run(driver),
            DriverRule::HasDrivingLicence(rule) => rule.run(driver),
            DriverRule::HasValidDrivingLicence(rule) => rule.run(driver),
        }
    }
}

} // verus!
