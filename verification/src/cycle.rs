//! Cyclic signal resolution: a signal whose update rule reads its own
//! previous value.
//!
//! The construction is two-phase: declare a placeholder with an initial
//! value, then resolve it to a derivation exactly once. Sampling before
//! resolution, resolving twice, or stepping before resolution are usage
//! errors, not runtime conditions to recover from. Once resolved, the
//! signal is well defined for all time: its value starts at the declared
//! initial value and each step applies the derivation to the previous value
//! and one new event, and to nothing else.

use vstd::prelude::*;

verus! {

/// A programming error in the use of a cyclic signal.
#[derive(Copy, Clone, Debug, PartialEq, Eq, Structural)]
pub enum UsageError {
    /// The placeholder was sampled or stepped before it was resolved.
    Unresolved,

    /// The placeholder was resolved a second time.
    AlreadyResolved,
}

/// A signal placeholder with a deferred-resolution slot for its derivation.
/// `T` is the signal's value; the derivation maps the previous value and
/// one event to the next value.
pub struct SignalCycle<T, F> {
    value: T,
    rule: Option<F>,
}

impl<T, F> SignalCycle<T, F> {
    /// The signal's current value.
    pub closed spec fn value(&self) -> T {
        self.value
    }

    /// Whether the placeholder has been resolved to a derivation.
    pub closed spec fn is_resolved(&self) -> bool {
        self.rule is Some
    }

    /// The derivation the placeholder was resolved to.
    pub closed spec fn rule(&self) -> F
        recommends
            self.is_resolved(),
    {
        self.rule->0
    }

    /// Declare a placeholder holding `initial`, not yet resolved.
    pub fn new(initial: T) -> (s: SignalCycle<T, F>)
        ensures
            !s.is_resolved(),
            s.value() == initial,
    {
        SignalCycle { value: initial, rule: None }
    }

    /// Resolve the placeholder to its derivation. Resolving an already
    /// resolved signal is a usage error and changes nothing.
    pub fn resolve(&mut self, rule: F) -> (r: Result<(), UsageError>)
        ensures
            !old(self).is_resolved() ==> {
                &&& r is Ok
                &&& final(self).is_resolved()
                &&& final(self).rule() == rule
                &&& final(self).value() == old(self).value()
            },
            old(self).is_resolved() ==> {
                &&& r == Result::<(), UsageError>::Err(UsageError::AlreadyResolved)
                &&& *final(self) == *old(self)
            },
    {
        if self.rule.is_some() {
            Err(UsageError::AlreadyResolved)
        } else {
            self.rule = Some(rule);
            Ok(())
        }
    }

    /// Sample the signal's current value. Sampling before resolution is a
    /// usage error.
    pub fn sample(&self) -> (r: Result<&T, UsageError>)
        ensures
            self.is_resolved() ==> r == Result::<&T, UsageError>::Ok(&self.value()),
            !self.is_resolved() ==> r == Result::<&T, UsageError>::Err(UsageError::Unresolved),
    {
        match &self.rule {
            Some(_) => Ok(&self.value),
            None => Err(UsageError::Unresolved),
        }
    }

    /// Advance the signal by one event: the next value is the derivation
    /// applied to the previous value and the event, and to nothing else.
    /// Stepping before resolution is a usage error and changes nothing.
    pub fn step<E>(&mut self, event: &E) -> (r: Result<(), UsageError>) where F: Fn(&T, &E) -> T
        requires
            old(self).is_resolved() ==> call_requires(
                old(self).rule(),
                (&old(self).value(), event),
            ),
        ensures
            old(self).is_resolved() ==> {
                &&& r is Ok
                &&& final(self).is_resolved()
                &&& final(self).rule() == old(self).rule()
                &&& call_ensures(
                    old(self).rule(),
                    (&old(self).value(), event),
                    final(self).value(),
                )
            },
            !old(self).is_resolved() ==> {
                &&& r == Result::<(), UsageError>::Err(UsageError::Unresolved)
                &&& *final(self) == *old(self)
            },
    {
        match &self.rule {
            Some(rule) => {
                let next = rule(&self.value, event);
                self.value = next;
                Ok(())
            },
            None => Err(UsageError::Unresolved),
        }
    }
}

} // verus!
