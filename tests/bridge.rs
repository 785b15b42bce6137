use bluenote_bluetooth::bridge::NonBlockingThreadsafeFunctionWithReturn;
use bluenote_bluetooth::error::Error;

fn registered() -> NonBlockingThreadsafeFunctionWithReturn<&'static str> {
    let mut slot = NonBlockingThreadsafeFunctionWithReturn::new();
    slot.set_callback("handler");
    slot
}

#[test]
fn call_without_handler_fails() {
    let mut slot: NonBlockingThreadsafeFunctionWithReturn<&'static str> =
        NonBlockingThreadsafeFunctionWithReturn::new();
    assert!(slot.handler().is_none());
    assert_eq!(slot.call(), Err(Error::CallNotRegistered));
    // The failed call leaves the slot free.
    slot.set_callback("handler");
    assert_eq!(slot.call(), Ok(0));
}

#[test]
fn second_call_before_resolve_is_in_flight() {
    let mut slot = registered();
    let t = slot.call().unwrap();
    assert_eq!(slot.call(), Err(Error::CallAlreadyInFlight));
    assert_eq!(slot.send_result(true), Some((t, true)));
    assert!(slot.call().is_ok());
}

#[test]
fn tickets_differ_between_calls() {
    let mut slot = registered();
    let t1 = slot.call().unwrap();
    assert_eq!(slot.send_result(1u8), Some((t1, 1)));
    let t2 = slot.call().unwrap();
    assert_ne!(t1, t2);
}

#[test]
fn timeout_then_late_reply_is_dropped() {
    let mut slot = registered();
    let t = slot.call().unwrap();
    assert_eq!(slot.expire(t), Err(Error::CallTimeout));
    assert_eq!(slot.send_result("late".to_string()), None);
    assert!(slot.call().is_ok());
}

#[test]
fn resolve_without_call_is_a_no_op() {
    let mut slot = registered();
    assert_eq!(slot.send_result(()), None);
    assert_eq!(slot.call(), Ok(0));
}

#[test]
fn expiry_after_reply_changes_nothing() {
    let mut slot = registered();
    let t = slot.call().unwrap();
    assert_eq!(slot.send_result(5), Some((t, 5)));
    assert_eq!(slot.expire(t), Ok(()));
    let t2 = slot.call().unwrap();
    // An old ticket's expiry does not cancel the new call.
    assert_eq!(slot.expire(t), Ok(()));
    assert_eq!(slot.call(), Err(Error::CallAlreadyInFlight));
    assert_eq!(slot.expire(t2), Err(Error::CallTimeout));
}

#[test]
fn replacing_the_handler_keeps_the_open_call() {
    let mut slot = registered();
    let t = slot.call().unwrap();
    slot.set_callback("other");
    assert_eq!(slot.handler(), Some(&"other"));
    assert_eq!(slot.call(), Err(Error::CallAlreadyInFlight));
    assert_eq!(slot.send_result(0), Some((t, 0)));
}
