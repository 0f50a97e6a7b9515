use sactor::error::{SactorError, SactorResult};
use sactor::intercept::{after_call, after_intercept, intercept, Verdict};

#[derive(Debug)]
struct Broken(u32);

impl std::fmt::Display for Broken {
    fn fmt(&self, f: &mut std::fmt::Formatter<'_>) -> std::fmt::Result {
        f.write_str("broken: ")?;
        self.0.fmt(f)
    }
}

impl std::error::Error for Broken {}

fn failed(code: u32) -> SactorError {
    SactorError::from(Broken(code))
}

#[test]
fn stopped_message() {
    assert_eq!(SactorError::ActorStopped.message(), "Actor has been stopped");
}

#[test]
fn other_message_is_the_error_text() {
    assert_eq!(failed(17).message(), "broken: 17");
    let direct = SactorError::Other(anyhow::Error::msg("no route"));
    assert_eq!(direct.message(), "no route");
}

#[test]
fn from_wraps_as_other_and_keeps_the_error() {
    match failed(4) {
        SactorError::Other(inner) => {
            assert_eq!(inner.downcast_ref::<Broken>().unwrap().0, 4);
        }
        SactorError::ActorStopped => panic!("a method's own error is not a delivery failure"),
    }
}

#[test]
fn success_never_reaches_the_interceptor() {
    let result: SactorResult<u32> = Ok(5);
    assert!(matches!(after_call(result, true), Verdict::Reply(Ok(5))));
    let result: SactorResult<u32> = Ok(6);
    assert!(matches!(after_call(result, false), Verdict::Reply(Ok(6))));
}

#[test]
fn failure_goes_to_the_interceptor_as_it_is() {
    let result: SactorResult<u32> = Err(failed(9));
    match after_call(result, true) {
        Verdict::Intercept(error) => assert_eq!(error.message(), "broken: 9"),
        Verdict::Reply(_) => panic!("the interceptor has to see the failure first"),
    }
}

#[test]
fn failure_without_interceptor_is_replied() {
    let result: SactorResult<u32> = Err(failed(2));
    match after_call(result, false) {
        Verdict::Reply(Err(error)) => assert_eq!(error.message(), "broken: 2"),
        _ => panic!("without an interceptor the failure is the reply"),
    }
}

#[test]
fn reply_after_interception_is_still_a_failure() {
    let reply: SactorResult<u32> = after_intercept(failed(1));
    assert_eq!(reply.unwrap_err().message(), "broken: 1");
    let reply: SactorResult<u32> = after_intercept(SactorError::ActorStopped);
    assert!(matches!(reply, Err(SactorError::ActorStopped)));
}

#[test]
fn hook_sees_the_exact_error_and_may_rewrite_it() {
    let seen = std::cell::RefCell::new(Vec::new());
    let result: SactorResult<u32> = Err(failed(3));
    let reply = intercept(result, |error| {
        seen.borrow_mut().push(error.message());
        SactorError::from(Broken(30))
    });
    assert_eq!(seen.into_inner(), vec!["broken: 3".to_string()]);
    assert_eq!(reply.unwrap_err().message(), "broken: 30");
}

#[test]
fn hook_is_not_called_on_success() {
    let calls = std::cell::Cell::new(0);
    let result: SactorResult<u32> = Ok(8);
    let reply = intercept(result, |error| {
        calls.set(calls.get() + 1);
        error
    });
    assert_eq!(calls.get(), 0);
    assert_eq!(reply.unwrap(), 8);
}
