use hoops::handler::{register, server_error, ServerError};
use hoops::invoker::ActionInvoker;
use hoops::page::{display_text, RegisterPage};
use hoops::resource::{error_message, ErrorResource};
use hoops::user::User;

fn failure(message: &str) -> Result<(), ServerError> {
    Err(server_error(message))
}

#[test]
fn handler_always_fails_with_fixed_message() {
    for name in ["Alice", "", "Bob"] {
        match register(name.to_string()) {
            Err(e) => assert_eq!(e.message, "error!"),
            Ok(()) => panic!("the handler succeeded"),
        }
    }
}

#[test]
fn alice_submission_displays_server_error() {
    let mut page = RegisterPage::new();
    let id = page.submit();
    assert_eq!(id, 0);
    page.complete(register("Alice".to_string()));
    assert_eq!(page.error(), Some("error!".to_string()));
    assert_eq!(page.displayed(), "error: error!");
}

#[test]
fn before_any_submission_shows_placeholder() {
    let page = RegisterPage::new();
    assert_eq!(page.error(), None);
    assert_eq!(page.displayed(), "no errors?");
    assert_eq!(page.version(), 0);
    assert_eq!(page.in_flight(), 0);
}

#[test]
fn failure_message_is_shown_exactly() {
    let mut page = RegisterPage::new();
    page.submit();
    page.complete(failure("name already taken"));
    assert_eq!(page.error(), Some("name already taken".to_string()));
    assert_eq!(page.displayed(), "error: name already taken");
}

#[test]
fn success_clears_previous_error() {
    let mut page = RegisterPage::new();
    page.submit();
    page.complete(failure("boom"));
    assert_eq!(page.displayed(), "error: boom");
    page.submit();
    page.complete(Ok(()));
    assert_eq!(page.error(), None);
    assert_eq!(page.displayed(), "no errors?");
    assert_eq!(page.version(), 2);
}

#[test]
fn double_submission_shows_last_completion() {
    let mut page = RegisterPage::new();
    let first = page.submit();
    let second = page.submit();
    assert_eq!((first, second), (0, 1));
    assert_eq!(page.in_flight(), 2);
    // the call submitted second completes first
    page.complete(failure("from second"));
    assert_eq!(page.in_flight(), 1);
    page.complete(failure("from first"));
    assert_eq!(page.in_flight(), 0);
    assert_eq!(page.version(), 2);
    assert_eq!(page.displayed(), "error: from first");
}

#[test]
fn error_after_many_completions_follows_the_last() {
    let mut page = RegisterPage::new();
    for _ in 0..3 {
        page.submit();
    }
    page.complete(failure("one"));
    page.complete(Ok(()));
    page.complete(failure("three"));
    assert_eq!(page.error(), Some("three".to_string()));
    assert_eq!(page.version(), 3);
}

#[test]
fn empty_failure_message_shows_placeholder() {
    let mut page = RegisterPage::new();
    page.submit();
    page.complete(failure(""));
    assert_eq!(page.error(), Some(String::new()));
    assert_eq!(page.displayed(), "no errors?");
}

#[test]
fn error_message_unwraps_each_layer() {
    assert_eq!(error_message(&None), None);
    assert_eq!(error_message(&Some(Ok(()))), None);
    assert_eq!(error_message(&Some(failure("bad"))), Some("bad".to_string()));
}

#[test]
fn display_text_prefixes_message() {
    assert_eq!(display_text(&Some("x".to_string())), "error: x");
    assert_eq!(display_text(&Some(String::new())), "no errors?");
    assert_eq!(display_text(&None), "no errors?");
}

#[test]
fn invoker_counts_completions() {
    let mut invoker = ActionInvoker::new();
    assert_eq!(invoker.version(), 0);
    assert!(invoker.value().is_none());
    invoker.submit();
    invoker.submit();
    assert_eq!(invoker.submitted(), 2);
    invoker.complete(Ok(()));
    assert_eq!(invoker.version(), 1);
    assert_eq!(invoker.in_flight(), 1);
    invoker.complete(failure("late"));
    assert_eq!(invoker.version(), 2);
    assert_eq!(error_message(invoker.value()), Some("late".to_string()));
}

#[test]
fn resource_recomputes_only_when_version_moves() {
    let mut invoker = ActionInvoker::new();
    let mut resource = ErrorResource::new();
    assert_eq!(resource.read(), None);
    resource.refresh(&invoker);
    assert_eq!(resource.read(), None);
    invoker.submit();
    invoker.complete(failure("first"));
    resource.refresh(&invoker);
    assert_eq!(resource.read(), Some("first".to_string()));
    resource.refresh(&invoker);
    assert_eq!(resource.read(), Some("first".to_string()));
}

#[test]
fn server_error_keeps_message() {
    assert_eq!(server_error("oops").message, "oops");
}

#[test]
fn user_keeps_fields() {
    let id = uuid::Uuid::from_u128(0xa1a2a3a4b1b2c1c2d1d2d3d4d5d6d7d8);
    let user = User::new(
        id,
        "ali".to_string(),
        "Alice Liddell".to_string(),
        "Alice".to_string(),
    );
    assert_eq!(user.id(), id);
    assert_eq!(user.handle, "ali");
    assert_eq!(user.full_name, "Alice Liddell");
    assert_eq!(user.preferred_name, "Alice");
    assert_eq!(user.clone(), user);
}
