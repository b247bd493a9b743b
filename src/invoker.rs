use vstd::prelude::*;
use crate::handler::{Outcome, outcome_view};

verus! {

/// The latest completed outcome seen as a value, if any call has completed.
pub open spec fn latest_view(value: Option<Outcome>) -> Option<Result<(), Seq<char>>> {
    match value {
        None => None,
        Some(o) => Some(outcome_view(o)),
    }
}

/// What an invoker holds: how many calls were submitted, how many completed
/// (the version counter), and the outcome of the call that completed last.
pub struct InvokerState {
    pub submitted: nat,
    pub version: nat,
    pub latest: Option<Result<(), Seq<char>>>,
}

/// Triggers registration calls and records their completions. Calls race:
/// nothing is cancelled or deduplicated, and the value slot holds whichever
/// call completed most recently.
pub struct ActionInvoker {
    submitted: u64,
    version: u64,
    value: Option<Outcome>,
}

impl View for ActionInvoker {
    type V = InvokerState;

    closed spec fn view(&self) -> InvokerState {
        InvokerState {
            submitted: self.submitted as nat,
            version: self.version as nat,
            latest: latest_view(self.value),
        }
    }
}

impl ActionInvoker {
    /// No call completes more often than calls were submitted.
    pub open spec fn wf(&self) -> bool {
        self@.version <= self@.submitted
    }

    /// Number of calls that were submitted and have not completed yet.
    pub open spec fn spec_in_flight(&self) -> nat {
        (self@.submitted - self@.version) as nat
    }

    pub fn new() -> (r: ActionInvoker)
        ensures
            r.wf(),
            r@ == (InvokerState { submitted: 0, version: 0, latest: None }),
    {
        ActionInvoker { submitted: 0, version: 0, value: None }
    }

    /// Records that a call was sent off; returns its number, counting from 0.
    /// The version counter and the value slot are left as they are.
    pub fn submit(&mut self) -> (id: u64)
        requires
            old(self).wf(),
            old(self)@.submitted < u64::MAX,
        ensures
            final(self).wf(),
            id == old(self)@.submitted,
            final(self)@ == (InvokerState { submitted: old(self)@.submitted + 1, ..old(self)@ }),
    {
        let id = self.submitted;
        self.submitted = self.submitted + 1;
        id
    }

    /// Records the completion of a call that was in flight: its outcome
    /// becomes the value, whether it succeeded or failed, and the version
    /// counter goes up by exactly one.
    pub fn complete(&mut self, outcome: Outcome)
        requires
            old(self).wf(),
            old(self)@.version < old(self)@.submitted,
        ensures
            final(self).wf(),
            final(self)@ == (InvokerState {
                submitted: old(self)@.submitted,
                version: old(self)@.version + 1,
                latest: Some(outcome_view(outcome)),
            }),
    {
        self.version = self.version + 1;
        self.value = Some(outcome);
    }

    pub fn version(&self) -> (r: u64)
        ensures
            r == self@.version,
    {
        self.version
    }

    pub fn submitted(&self) -> (r: u64)
        ensures
            r == self@.submitted,
    {
        self.submitted
    }

    pub fn in_flight(&self) -> (r: u64)
        requires
            self.wf(),
        ensures
            r == self.spec_in_flight(),
    {
        self.submitted - self.version
    }

    /// The outcome of the call that completed last, if any has.
    pub fn value(&self) -> (r: &Option<Outcome>)
        ensures
            latest_view(*r) == self@.latest,
    {
        &self.value
    }
}

} // verus!
