//! A small rule-based validation library for a driver entity.
//!
//! A [`rules::Rule`] inspects one entity and either accepts it or reports one
//! typed violation. A [`validator::DriverValidator`] holds an ordered list of
//! rules, runs every one of them against a driver, and returns every failure,
//! in rule order.

pub mod driver;
pub mod errors;
pub mod rules;
pub mod validator;
