use vstd::prelude::*;
use vstd::string::StringExecFns;
use crate::handler::{Outcome, outcome_view};
use crate::invoker::{ActionInvoker, InvokerState};
use crate::resource::{ErrorResource, error_of};

verus! {

/// The text shown in the error region: the message behind a fixed prefix
/// when there is a non-empty one, else the neutral placeholder.
pub open spec fn display_of(error: Option<Seq<char>>) -> Seq<char> {
    match error {
        Some(m) => if m.len() > 0 {
            "error: "@ + m
        } else {
            "no errors?"@
        },
        None => "no errors?"@,
    }
}

/// Renders what the error resource yields as the page's error text.
pub fn display_text(error: &Option<String>) -> (r: String)
    ensures
        r@ == display_of(error.deep_view()),
{
    match error {
        Some(m) => {
            if m.as_str().is_empty() {
                "no errors?".to_owned()
            } else {
                let mut text = "error: ".to_owned();
                text.append(m.as_str());
                text
            }
        },
        None => "no errors?".to_owned(),
    }
}

/// What happens to a page: a submission of the form, or the completion of a
/// call with its outcome.
pub enum PageEvent {
    Submit,
    Complete(Result<(), Seq<char>>),
}

/// What a page holds: its invoker, and the message its error resource yields.
pub struct PageState {
    pub invoker: InvokerState,
    pub error: Option<Seq<char>>,
}

/// The page after one event.
pub open spec fn step(s: PageState, e: PageEvent) -> PageState {
    match e {
        PageEvent::Submit => PageState {
            invoker: InvokerState { submitted: s.invoker.submitted + 1, ..s.invoker },
            ..s
        },
        PageEvent::Complete(o) => PageState {
            invoker: InvokerState {
                submitted: s.invoker.submitted,
                version: s.invoker.version + 1,
                latest: Some(o),
            },
            error: error_of(Some(o)),
        },
    }
}

/// The page after a sequence of events, taken in order.
pub open spec fn run(s: PageState, events: Seq<PageEvent>) -> PageState
    decreases events.len(),
{
    if events.len() == 0 {
        s
    } else {
        step(run(s, events.drop_last()), events.last())
    }
}

/// The outcome of the last completion among the events, if there is one.
pub open spec fn last_completion(events: Seq<PageEvent>) -> Option<Result<(), Seq<char>>>
    decreases events.len(),
{
    if events.len() == 0 {
        None
    } else {
        match events.last() {
            PageEvent::Complete(o) => Some(o),
            PageEvent::Submit => last_completion(events.drop_last()),
        }
    }
}

/// The registration page: the form's invoker and the error resource keyed on
/// its version counter, kept up to date on every completion.
pub struct RegisterPage {
    invoker: ActionInvoker,
    resource: ErrorResource,
}

impl View for RegisterPage {
    type V = PageState;

    closed spec fn view(&self) -> PageState {
        PageState { invoker: self.invoker@, error: self.resource@.result }
    }
}

impl RegisterPage {
    /// The resource has recomputed at the invoker's current version.
    pub closed spec fn wf(&self) -> bool {
        &&& self.invoker.wf()
        &&& self.resource@.seen == Some(self.invoker@.version)
        &&& self.resource@.result == error_of(self.invoker@.latest)
    }

    /// A page before any submission: nothing in flight, no outcome, and an
    /// absent error.
    pub fn new() -> (r: RegisterPage)
        ensures
            r.wf(),
            r@ == (PageState {
                invoker: InvokerState { submitted: 0, version: 0, latest: None },
                error: None,
            }),
    {
        let invoker = ActionInvoker::new();
        let mut resource = ErrorResource::new();
        resource.refresh(&invoker);
        RegisterPage { invoker, resource }
    }

    /// Submits the form: one more call is in flight. Returns the call's number.
    pub fn submit(&mut self) -> (id: u64)
        requires
            old(self).wf(),
            old(self)@.invoker.submitted < u64::MAX,
        ensures
            final(self).wf(),
            id == old(self)@.invoker.submitted,
            final(self)@ == step(old(self)@, PageEvent::Submit),
    {
        self.invoker.submit()
    }

    /// A call in flight has completed with `outcome`: the invoker records it
    /// and the error resource recomputes from it.
    pub fn complete(&mut self, outcome: Outcome)
        requires
            old(self).wf(),
            old(self)@.invoker.version < old(self)@.invoker.submitted,
        ensures
            final(self).wf(),
            final(self)@ == step(old(self)@, PageEvent::Complete(outcome_view(outcome))),
    {
        self.invoker.complete(outcome);
        self.resource.refresh(&self.invoker);
    }

    /// Number of calls submitted and not yet completed.
    pub fn in_flight(&self) -> (r: u64)
        requires
            self.wf(),
        ensures
            r == self@.invoker.submitted - self@.invoker.version,
    {
        self.invoker.in_flight()
    }

    pub fn version(&self) -> (r: u64)
        ensures
            r == self@.invoker.version,
    {
        self.invoker.version()
    }

    /// What the error resource yields.
    pub fn error(&self) -> (r: Option<String>)
        ensures
            r.deep_view() == self@.error,
    {
        self.resource.read()
    }

    /// The text the page shows in its error region.
    pub fn displayed(&self) -> (r: String)
        ensures
            r@ == display_of(self@.error),
    {
        display_text(&self.resource.read())
    }
}

/// When a call fails, the error the page yields afterwards is exactly the
/// failure's message.
pub proof fn lemma_failure_shows_message(s: PageState, message: Seq<char>)
    ensures
        step(s, PageEvent::Complete(Err(message))).error == Some(message),
{
}

/// When a call succeeds, the page yields no error afterwards and shows the
/// placeholder.
pub proof fn lemma_success_shows_no_error(s: PageState)
    ensures
        step(s, PageEvent::Complete(Ok(()))).error == None::<Seq<char>>,
        display_of(step(s, PageEvent::Complete(Ok(()))).error) == "no errors?"@,
{
}

/// Whatever the events, the error a page yields is derived from the outcome
/// of the last completion, the one that moved the version counter last; with
/// no completion it is the error the page yielded before.
pub proof fn lemma_no_stale_error(s: PageState, events: Seq<PageEvent>)
    ensures
        run(s, events).error == match last_completion(events) {
            Some(o) => error_of(Some(o)),
            None => s.error,
        },
        last_completion(events) is Some ==> run(s, events).invoker.latest == last_completion(
            events,
        ),
    decreases events.len(),
{
    if events.len() > 0 {
        lemma_no_stale_error(s, events.drop_last());
    }
}

/// With two calls in flight, the page ends up showing what follows from the
/// call that completed second, whichever of them was submitted first.
pub proof fn lemma_last_completion_wins(
    s: PageState,
    first: Result<(), Seq<char>>,
    second: Result<(), Seq<char>>,
)
    ensures
        ({
            let events = seq![
                PageEvent::Submit,
                PageEvent::Submit,
                PageEvent::Complete(first),
                PageEvent::Complete(second),
            ];
            &&& run(s, events).invoker.version == s.invoker.version + 2
            &&& run(s, events).error == error_of(Some(second))
            &&& display_of(run(s, events).error) == display_of(error_of(Some(second)))
        }),
{
    reveal_with_fuel(run, 5);
}

} // verus!
