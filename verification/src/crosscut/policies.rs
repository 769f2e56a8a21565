//! What to do about data that cannot be processed.

use vstd::prelude::*;

verus! {

/// What to do about one kind of failure.
#[derive(Debug, Clone, Copy, PartialEq, Eq, Structural)]
pub enum ErrorAction {
    /// Go on without the data.
    Skip,
    /// Go on without the data, and let the operator know.
    Warn,
    /// Fail.
    Default,
}

/// What to do about each kind of failure. The action for any failure, where
/// it is set, stands for all kinds.
#[derive(Debug, Clone, Copy, PartialEq, Eq, Structural)]
pub struct RuntimePolicy {
    pub missing_data: Option<ErrorAction>,
    pub cbor_errors: Option<ErrorAction>,
    pub ledger_errors: Option<ErrorAction>,
    pub any_error: Option<ErrorAction>,
}

impl RuntimePolicy {
    /// The policy that fails on everything.
    pub fn strict() -> (policy: RuntimePolicy)
        ensures
            policy == (RuntimePolicy {
                missing_data: None,
                cbor_errors: None,
                ledger_errors: None,
                any_error: None,
            }),
    {
        RuntimePolicy {
            missing_data: None,
            cbor_errors: None,
            ledger_errors: None,
            any_error: None,
        }
    }

    /// Whether processing goes on without data that is missing.
    pub open spec fn spec_skips_missing(self) -> bool {
        match self.any_error {
            Some(action) => !(action is Default),
            None => match self.missing_data {
                Some(action) => !(action is Default),
                None => false,
            },
        }
    }

    /// Whether processing goes on without data that is missing.
    #[verifier::when_used_as_spec(spec_skips_missing)]
    pub fn skips_missing(self) -> (skip: bool)
        ensures
            skip == self.spec_skips_missing(),
    {
        let action = match self.any_error {
            Some(action) => Some(action),
            None => self.missing_data,
        };
        match action {
            Some(ErrorAction::Skip) => true,
            Some(ErrorAction::Warn) => true,
            _ => false,
        }
    }
}

} // verus!
