use linera_execution::call_request::CallRequest;

#[test]
fn request_copies_argument_and_keeps_the_rest() {
    let argument = [4u8, 5, 6];
    let request = CallRequest::new(true, "callee", &argument, vec![10u64, 11]);
    assert!(request.authenticated);
    assert_eq!(request.callee, "callee");
    assert_eq!(request.argument, vec![4, 5, 6]);
    assert_eq!(request.forwarded_sessions, vec![10, 11]);
}

#[test]
fn request_with_empty_argument_and_no_sessions() {
    let request = CallRequest::<u8, u64>::new(false, 1, &[], Vec::new());
    assert!(!request.authenticated);
    assert_eq!(request.callee, 1);
    assert!(request.argument.is_empty());
    assert!(request.forwarded_sessions.is_empty());
}
