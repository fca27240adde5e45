use axum_proxy::future::{resolve_captured, resolve_dispatched};
use axum_proxy::{Activation, PendingCall, ProxyError, UriFault};

#[test]
fn dispatched_success_passes_through_untouched() {
    let response: Vec<u8> = b"HTTP/1.1 200 OK\r\n\r\nok".to_vec();
    let resolved = resolve_dispatched::<Vec<u8>, String>(Ok(response.clone()));
    assert_eq!(resolved, Ok(response));
}

#[test]
fn dispatched_failure_is_wrapped_unmodified() {
    let resolved = resolve_dispatched::<Vec<u8>, String>(Err("connection refused".to_string()));
    assert_eq!(resolved, Err(ProxyError::RequestFailed("connection refused".to_string())));
}

#[test]
fn captured_fault_resolves_to_invalid_uri() {
    let resolved = resolve_captured::<Vec<u8>, String>(UriFault::PolicyRejected);
    assert_eq!(resolved, Err(ProxyError::InvalidUri(UriFault::PolicyRejected)));
}

#[test]
fn open_wraps_the_handle_or_carries_the_fault() {
    let live: PendingCall<u32> = PendingCall::open(Ok(9));
    match live.activate() {
        Activation::Live(handle) => assert_eq!(handle, 9),
        Activation::Captured(_) => panic!("a dispatched call has no captured fault"),
    }
    let failed: PendingCall<u32> = PendingCall::open(Err(UriFault::BadHeader));
    match failed.activate() {
        Activation::Captured(fault) => assert_eq!(fault, UriFault::BadHeader),
        Activation::Live(_) => panic!("a failing call has no delegate"),
    }
}

#[test]
fn delegated_call_survives_not_ready_rounds() {
    // The caller's scheduling loop: two "not yet ready" polls, then the
    // client's outcome arrives and the machine is spent.
    let mut call: PendingCall<u32> = PendingCall::delegated(7);
    for _ in 0..2 {
        assert!(!call.is_spent());
        match call.activate() {
            Activation::Live(handle) => {
                assert_eq!(handle, 7);
                // Not ready: hand the delegate back to the machine.
                call = PendingCall::delegated(handle);
            }
            Activation::Captured(_) => panic!("a dispatched call has no captured fault"),
        }
    }
    let outcome = match call.activate() {
        Activation::Live(handle) => {
            assert_eq!(handle, 7);
            call = PendingCall::spent();
            resolve_dispatched::<&str, String>(Ok("ok"))
        }
        Activation::Captured(_) => panic!("a dispatched call has no captured fault"),
    };
    assert_eq!(outcome, Ok("ok"));
    assert!(call.is_spent());
}

#[test]
fn captured_fault_is_reported_exactly_once() {
    let mut call: PendingCall<u32> = PendingCall::failing(UriFault::BadMethod);
    assert!(!call.is_spent());
    let outcome = match call.activate() {
        Activation::Captured(fault) => {
            call = PendingCall::spent();
            resolve_captured::<&str, String>(fault)
        }
        Activation::Live(_) => panic!("a failing call has no delegate"),
    };
    assert_eq!(outcome, Err(ProxyError::InvalidUri(UriFault::BadMethod)));
    // The machine is spent: a second resolution attempt is a programming
    // error, and the caller's guard is exactly this test.
    assert!(call.is_spent());
}
