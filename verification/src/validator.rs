//! The validator: runs every rule against one entity and collects every
//! failure, in rule order.

use vstd::prelude::*;

use crate::driver::Driver;
use crate::errors::DriverError;
use crate::rules::{DriverRule, Rule};

verus! {

/// Anything that checks an entity of type `T` and reports its violations as
/// a list of errors of type `E`. `spec_validate` is the validator's meaning;
/// `validate` must return exactly that list, so validation is deterministic
/// and free of hidden state.
pub trait Validator<T, E> {
    /// The full list of violations of `t`.
    spec fn spec_validate(&self, t: &T) -> Seq<E>;

    /// Checks `t` and returns every violation found. An empty result means
    /// full compliance.
    fn validate(&self, t: &T) -> (errors: Vec<E>)
        ensures
            errors@ == self.spec_validate(t),
    ;
}

/// The errors that `rules`, run in order against `driver`, produce: one per
/// failing rule, none per passing rule, in rule order.
pub open spec fn errors_of(rules: Seq<DriverRule>, driver: &Driver) -> Seq<DriverError>
    decreases rules.len(),
{
    if rules.len() == 0 {
        Seq::<DriverError>::empty()
    } else {
        let front = errors_of(rules.drop_last(), driver);
        match rules.last().spec_run(driver) {
            Ok(()) => front,
            Err(e) => front.push(e),
        }
    }
}

/// Runs an ordered collection of driver rules against one driver and
/// reports every violation. Immutable once built and reusable across many
/// `validate` calls.
pub struct DriverValidator {
    rules: Vec<DriverRule>,
}

impl DriverValidator {
    /// The ordered rules this validator runs.
    pub closed spec fn spec_rules(&self) -> Seq<DriverRule> {
        self.rules@
    }

    /// A validator over `rules`, kept in their given order.
    pub fn new(rules: Vec<DriverRule>) -> (v: Self)
        ensures
            v.spec_rules() == rules@,
    {
        Self { rules }
    }
}

impl Validator<Driver, DriverError> for DriverValidator {
    open spec fn spec_validate(&self, driver: &Driver) -> Seq<DriverError> {
        errors_of(self.spec_rules(), driver)
    }

    /// Runs every rule, never short-circuiting: a failing early rule does
    /// not prevent later rules from running.
    fn validate(&self, driver: &Driver) -> (errors: Vec<DriverError>) {
        let mut errors: Vec<DriverError> = Vec::new();
        let n: usize = self.rules.len();
        let mut i: usize = 0;
        while i < n
            invariant
                i <= n,
                n == self.spec_rules().len(),
                errors@ == errors_of(self.spec_rules().take(i as int), driver),
            decreases n - i,
        {
            match self.rules[i].run(driver) {
                Ok(()) => {},
                Err(e) => errors.push(e),
            }
            proof {
                let taken = self.spec_rules().take(i + 1);
                assert(taken.drop_last() =~= self.spec_rules().take(i as int));
                assert(taken.last() == self.spec_rules()[i as int]);
            }
            i += 1;
        }
        proof {
            assert(self.spec_rules().take(n as int) =~= self.spec_rules());
        }
        errors
    }
}

/// Accumulates rule instances one at a time and produces an immutable
/// [`DriverValidator`] on [`DriverValidatorBuilder::build`], which consumes
/// the builder.
pub struct DriverValidatorBuilder {
    rules: Vec<DriverRule>,
}

impl DriverValidatorBuilder {
    /// The rules accumulated so far, in insertion order.
    pub closed spec fn spec_rules(&self) -> Seq<DriverRule> {
        self.rules@
    }

    /// A builder holding no rules yet.
    pub fn new() -> (b: Self)
        ensures
            b.spec_rules() == Seq::<DriverRule>::empty(),
    {
        Self { rules: Vec::new() }
    }

    /// Appends `rule` after the rules already accumulated.
    pub fn with_rule(self, rule: DriverRule) -> (b: Self)
        ensures
            b.spec_rules() == self.spec_rules().push(rule),
    {
        let mut b = self;
        b.rules.push(rule);
        b
    }

    /// Finalizes into a validator running the accumulated rules in
    /// insertion order.
    pub fn build(self) -> (v: DriverValidator)
        ensures
            v.spec_rules() == self.spec_rules(),
    {
        DriverValidator::new(self.rules)
    }
}

/// Validation reports exactly one error per failing rule and none per
/// passing rule, in rule-insertion order: the error list is precisely the
/// failing rules, in order, each mapped to its own error.
pub proof fn lemma_one_error_per_failing_rule(rules: Seq<DriverRule>, driver: &Driver)
    ensures
        errors_of(rules, driver) == rules.filter(
            |rule: DriverRule| rule.spec_run(driver) is Err,
        ).map_values(|rule: DriverRule| rule.spec_run(driver)->Err_0),
    decreases rules.len(),
{
    reveal(Seq::filter);
    let failing = |rule: DriverRule| rule.spec_run(driver) is Err;
    let error_of = |rule: DriverRule| rule.spec_run(driver)->Err_0;
    if rules.len() == 0 {
        assert(errors_of(rules, driver) =~= rules.filter(failing).map_values(error_of));
    } else {
        let front = rules.drop_last();
        lemma_one_error_per_failing_rule(front, driver);
        if failing(rules.last()) {
            assert(rules.filter(failing) == front.filter(failing).push(rules.last()));
            assert(front.filter(failing).map_values(error_of).push(error_of(rules.last()))
                =~= front.filter(failing).push(rules.last()).map_values(error_of));
        } else {
            assert(rules.filter(failing) == front.filter(failing));
        }
        assert(errors_of(rules, driver) =~= rules.filter(failing).map_values(error_of));
    }
}

/// Repeated validation is idempotent: two runs of the same validator on the
/// same driver yield identical error lists, because `validate`'s outcome is
/// a function of the validator's rules and the driver alone.
pub proof fn lemma_validate_idempotent(
    v: &DriverValidator,
    driver: &Driver,
    first: Seq<DriverError>,
    second: Seq<DriverError>,
)
    requires
        first == v.spec_validate(driver),
        second == v.spec_validate(driver),
    ensures
        first == second,
{
}

} // verus!
