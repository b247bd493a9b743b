use vstd::prelude::*;

verus! {

/// The one error kind of a registration call: a server error carrying a
/// free-text message.
pub struct ServerError {
    pub message: String,
}

impl View for ServerError {
    type V = Seq<char>;

    open spec fn view(&self) -> Seq<char> {
        self.message@
    }
}

/// What one registration call produced.
pub type Outcome = Result<(), ServerError>;

/// An outcome seen as a value: success, or the failure's message.
pub open spec fn outcome_view(o: Outcome) -> Result<(), Seq<char>> {
    match o {
        Ok(()) => Ok(()),
        Err(e) => Err(e@),
    }
}

/// The message with which the handler fails.
pub open spec fn failure_message() -> Seq<char> {
    "error!"@
}

/// Builds the error of a failed call from its message.
pub fn server_error(message: &str) -> (r: ServerError)
    ensures
        r@ == message@,
{
    ServerError { message: message.to_owned() }
}

fn do_falliable_thing() -> (r: Outcome)
    ensures
        outcome_view(r) == Err::<(), Seq<char>>(failure_message()),
{
    Err(server_error("error!"))
}

/// Server-side registration handler. It takes the submitted name and, having
/// no validation or storage behind it, always fails with the same message.
pub fn register(_name: String) -> (r: Outcome)
    ensures
        outcome_view(r) == Err::<(), Seq<char>>(failure_message()),
{
    match do_falliable_thing() {
        Err(e) => Err(e),
        Ok(()) => Ok(()),
    }
}

} // verus!
