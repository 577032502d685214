use tiered_sync::stack_overflow::cleanup;
use tiered_sync::stack_overflow::init;
use tiered_sync::stack_overflow::vectored_handler;
use tiered_sync::stack_overflow::Failure;
use tiered_sync::stack_overflow::Handler;
use tiered_sync::stack_overflow::ERROR_CALL_NOT_IMPLEMENTED;
use tiered_sync::stack_overflow::EXCEPTION_CONTINUE_SEARCH;
use tiered_sync::stack_overflow::EXCEPTION_STACK_OVERFLOW;

#[test]
fn reserved_stack_space_is_always_fine() {
    assert_eq!(Handler::new(true, 0, true), Ok(Handler));
    assert_eq!(Handler::new(true, 5, false), Ok(Handler));
    assert_eq!(Handler::new(true, ERROR_CALL_NOT_IMPLEMENTED, true), Ok(Handler));
}

#[test]
fn missing_entry_point_is_tolerated_on_old_targets_only() {
    assert_eq!(Handler::new(false, ERROR_CALL_NOT_IMPLEMENTED, false), Ok(Handler));
    assert_eq!(Handler::new(false, 120, false), Ok(Handler));
    assert_eq!(Handler::new(false, ERROR_CALL_NOT_IMPLEMENTED, true), Err(Failure::Reserve));
}

#[test]
fn other_failures_to_reserve_are_fatal() {
    assert_eq!(Handler::new(false, 0, false), Err(Failure::Reserve));
    assert_eq!(Handler::new(false, 5, false), Err(Failure::Reserve));
    assert_eq!(Handler::new(false, 5, true), Err(Failure::Reserve));
}

#[test]
fn handler_install_tolerates_a_missing_entry_point() {
    assert_eq!(init(true, 0), Ok(()));
    assert_eq!(init(true, 5), Ok(()));
    assert_eq!(init(false, ERROR_CALL_NOT_IMPLEMENTED), Ok(()));
    assert_eq!(init(false, 0), Err(Failure::Install));
    assert_eq!(init(false, 87), Err(Failure::Install));
    cleanup();
}

#[test]
fn only_stack_overflows_are_reported() {
    let handling = vectored_handler(EXCEPTION_STACK_OVERFLOW);
    assert!(handling.report_overflow);
    assert_eq!(handling.disposition, EXCEPTION_CONTINUE_SEARCH);
    let handling = vectored_handler(0xC000_0005);
    assert!(!handling.report_overflow);
    assert_eq!(handling.disposition, 0);
    assert!(!vectored_handler(0).report_overflow);
}
