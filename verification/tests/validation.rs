use chrono::{DateTime, Duration, Utc};

use driver_rules::driver::{Driver, Licence, LicenceType};
use driver_rules::errors::DriverError;
use driver_rules::errors::DriverError::{
    AboveAllowedAlcoholLevel, LicenceExpired, UnderRequiredAge, WithoutLicence,
};
use driver_rules::rules::{
    DriverRule, HasAge, HasDrivingLicence, HasValidDrivingLicence, IsSober,
};
use driver_rules::validator::{DriverValidator, DriverValidatorBuilder, Validator};

#[test]
fn validator_runs_multiple_rules_and_returns_errors() {
    let driver = Driver {
        age: 17,
        alcohol_in_blood: 30,
        licence: None,
    };

    let validator = DriverValidatorBuilder::new()
        .with_rule(DriverRule::HasDrivingLicence(HasDrivingLicence))
        .with_rule(DriverRule::IsSober(IsSober { allowed_level: 49 }))
        .with_rule(DriverRule::HasAge(HasAge { required_age: 18 }))
        .build();

    let result = validator.validate(&driver);

    assert_eq!(result.len(), 2)
}

#[test]
fn validator_reports_every_failure_in_rule_order() {
    let driver = Driver {
        age: 17,
        alcohol_in_blood: 30,
        licence: None,
    };

    let validator = DriverValidatorBuilder::new()
        .with_rule(DriverRule::HasDrivingLicence(HasDrivingLicence))
        .with_rule(DriverRule::IsSober(IsSober { allowed_level: 49 }))
        .with_rule(DriverRule::HasAge(HasAge { required_age: 18 }))
        .build();

    let result = validator.validate(&driver);

    assert_eq!(result, vec![WithoutLicence, UnderRequiredAge(17)]);
}

#[test]
fn validator_from_direct_construction_matches_builder() {
    let driver = Driver {
        age: 16,
        alcohol_in_blood: 80,
        licence: None,
    };

    let rules = vec![
        DriverRule::HasAge(HasAge { required_age: 18 }),
        DriverRule::IsSober(IsSober { allowed_level: 49 }),
    ];
    let direct = DriverValidator::new(rules);

    let built = DriverValidatorBuilder::new()
        .with_rule(DriverRule::HasAge(HasAge { required_age: 18 }))
        .with_rule(DriverRule::IsSober(IsSober { allowed_level: 49 }))
        .build();

    assert_eq!(direct.validate(&driver), built.validate(&driver));
    assert_eq!(
        direct.validate(&driver),
        vec![UnderRequiredAge(16), AboveAllowedAlcoholLevel(80)]
    );
}

#[test]
fn compliant_driver_gets_empty_result() {
    let today = Utc::now();
    let driver = Driver {
        age: 30,
        alcohol_in_blood: 0,
        licence: Some(Licence {
            licence_type: LicenceType::B,
            expiration: (today + Duration::days(365)).timestamp(),
        }),
    };

    let validator = DriverValidatorBuilder::new()
        .with_rule(DriverRule::HasDrivingLicence(HasDrivingLicence))
        .with_rule(DriverRule::HasValidDrivingLicence(HasValidDrivingLicence {
            date: today.timestamp(),
        }))
        .with_rule(DriverRule::IsSober(IsSober { allowed_level: 49 }))
        .with_rule(DriverRule::HasAge(HasAge { required_age: 18 }))
        .build();

    assert_eq!(validator.validate(&driver), vec![]);
}

#[test]
fn expired_licence_is_reported_with_its_expiration() {
    let today = Utc::now();
    let expiration: i64 = (today - Duration::days(2)).timestamp();
    let driver = Driver {
        age: 21,
        alcohol_in_blood: 0,
        licence: Some(Licence {
            licence_type: LicenceType::DE,
            expiration,
        }),
    };

    let validator = DriverValidatorBuilder::new()
        .with_rule(DriverRule::HasDrivingLicence(HasDrivingLicence))
        .with_rule(DriverRule::HasValidDrivingLicence(HasValidDrivingLicence {
            date: today.timestamp(),
        }))
        .build();

    assert_eq!(validator.validate(&driver), vec![LicenceExpired(expiration)]);
}

#[test]
fn repeated_validation_yields_identical_results() {
    let driver = Driver {
        age: 17,
        alcohol_in_blood: 50,
        licence: None,
    };

    let validator = DriverValidatorBuilder::new()
        .with_rule(DriverRule::HasDrivingLicence(HasDrivingLicence))
        .with_rule(DriverRule::IsSober(IsSober { allowed_level: 49 }))
        .with_rule(DriverRule::HasAge(HasAge { required_age: 18 }))
        .build();

    let first = validator.validate(&driver);
    let second = validator.validate(&driver);
    let third = validator.validate(&driver);

    assert_eq!(first, second);
    assert_eq!(second, third);
    assert_eq!(
        first,
        vec![WithoutLicence, AboveAllowedAlcoholLevel(50), UnderRequiredAge(17)]
    );
}

#[test]
fn alcohol_message_renders_grams_per_litre() {
    assert_eq!(
        AboveAllowedAlcoholLevel(50).message(),
        "Alcohol level is: 0.50 grams/lt"
    );
    assert_eq!(
        AboveAllowedAlcoholLevel(123).message(),
        "Alcohol level is: 1.23 grams/lt"
    );
    assert_eq!(
        AboveAllowedAlcoholLevel(0).message(),
        "Alcohol level is: 0.00 grams/lt"
    );
}

#[test]
fn age_message_renders_years() {
    assert_eq!(UnderRequiredAge(17).message(), "Age is: 17 years");
    assert_eq!(UnderRequiredAge(9).message(), "Age is: 9 years");
    assert_eq!(UnderRequiredAge(105).message(), "Age is: 105 years");
}

#[test]
fn missing_licence_message_is_fixed() {
    assert_eq!(DriverError::WithoutLicence.message(), "Without licence");
}

#[test]
fn expired_licence_message_renders_utc_date() {
    let expiration: i64 = 1431648000;
    let date = DateTime::<Utc>::from_timestamp(expiration, 0).unwrap();

    assert_eq!(
        LicenceExpired(expiration).message(),
        format!("Licence expired on date: {}", date)
    );
    assert_eq!(
        LicenceExpired(expiration).message(),
        "Licence expired on date: 2015-05-15 00:00:00 UTC"
    );
}
