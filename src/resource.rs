use vstd::prelude::*;
use crate::handler::Outcome;
use crate::invoker::{ActionInvoker, latest_view};

verus! {

/// The error message derived from the latest outcome: absent before any call
/// has completed and after a success, the failure's message after a failure.
pub open spec fn error_of(latest: Option<Result<(), Seq<char>>>) -> Option<Seq<char>> {
    match latest {
        None => None,
        Some(Ok(())) => None,
        Some(Err(m)) => Some(m),
    }
}

/// Unwraps the value slot of an invoker into a displayable error message.
pub fn error_message(value: &Option<Outcome>) -> (r: Option<String>)
    ensures
        r.deep_view() == error_of(latest_view(*value)),
{
    match value {
        None => None,
        Some(Ok(())) => None,
        Some(Err(e)) => Some(e.message.clone()),
    }
}

/// What an error resource holds: the version counter it last recomputed at,
/// and the message it computed then.
pub struct ResourceState {
    pub seen: Option<nat>,
    pub result: Option<Seq<char>>,
}

/// A derived value keyed on an invoker's version counter: it recomputes its
/// message from the invoker's value slot whenever the counter has moved.
pub struct ErrorResource {
    seen: Option<u64>,
    result: Option<String>,
}

impl View for ErrorResource {
    type V = ResourceState;

    closed spec fn view(&self) -> ResourceState {
        ResourceState {
            seen: match self.seen {
                None => None,
                Some(v) => Some(v as nat),
            },
            result: self.result.deep_view(),
        }
    }
}

impl ErrorResource {
    /// A resource that has not computed anything yet: its result is absent.
    pub fn new() -> (r: ErrorResource)
        ensures
            r@ == (ResourceState { seen: None, result: None }),
    {
        ErrorResource { seen: None, result: None }
    }

    /// Brings the resource up to the invoker's version counter. Where the
    /// counter has not moved since the last recomputation nothing changes;
    /// otherwise the message is computed afresh from the invoker's value.
    pub fn refresh(&mut self, invoker: &ActionInvoker)
        ensures
            final(self)@.seen == Some(invoker@.version),
            old(self)@.seen == Some(invoker@.version) ==> final(self)@ == old(self)@,
            old(self)@.seen != Some(invoker@.version) ==> final(self)@.result == error_of(
                invoker@.latest,
            ),
    {
        let version = invoker.version();
        let stale = match self.seen {
            None => true,
            Some(v) => v != version,
        };
        if stale {
            self.result = error_message(invoker.value());
            self.seen = Some(version);
        }
    }

    /// The message as last computed.
    pub fn read(&self) -> (r: Option<String>)
        ensures
            r.deep_view() == self@.result,
    {
        match &self.result {
            None => None,
            Some(m) => Some(m.clone()),
        }
    }
}

} // verus!
