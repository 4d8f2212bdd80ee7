use flow_bot::correlator::{
    CallWait, Correlator, FrameClass, PendingTable, CALL_TIMEOUT_MS,
};
use flow_bot::error::FlowError;

#[test]
fn tokens_stay_unique_in_the_table() {
    let mut t: PendingTable<u32> = PendingTable::new();
    t.insert("t1".to_string(), 1);
    t.insert("t2".to_string(), 2);
    assert!(t.contains_token("t1"));
    assert!(t.contains_token("t2"));
    // each token resolves to its own slot, exactly once
    assert_eq!(t.take("t1"), Some(1));
    assert_eq!(t.take("t1"), None);
    assert_eq!(t.take("t2"), Some(2));
}

#[test]
fn issued_tokens_are_fresh_and_36_characters() {
    let c: Correlator<u32> = Correlator::new();
    let a = c.issue_token().unwrap();
    let b = c.issue_token().unwrap();
    assert_eq!(a.chars().count(), 36);
    assert_eq!(b.chars().count(), 36);
    assert_ne!(a, b);
}

#[test]
fn call_with_no_socket_fails_and_leaves_nothing_behind() {
    // scenario: a call is attempted before any socket is attached
    let mut c: Correlator<u32> = Correlator::new();
    let r = c.begin_call("get_status", b"{}", "tok".to_string(), 5);
    assert_eq!(r, Err(FlowError::NoConnection));
    // no pending entry outlives the failed call
    assert_eq!(c.on_recv_echo("tok"), None);
}

#[test]
fn call_resolves_to_reply_before_the_deadline() {
    let mut c: Correlator<u32> = Correlator::new();
    c.attach();
    let frame = c
        .begin_call("get_status", b"{}", "tok".to_string(), 5)
        .unwrap();
    assert!(String::from_utf8(frame).unwrap().contains("\"echo\":\"tok\""));
    // the read loop sees the reply and fires the slot
    assert_eq!(c.on_recv_echo("tok"), Some(5));
    let settled = c.finish_call("tok", CallWait::Reply("raw".to_string()));
    assert_eq!(settled, Ok("raw".to_string()));
}

#[test]
fn call_times_out_and_the_stale_entry_is_removed() {
    let mut c: Correlator<u32> = Correlator::new();
    c.attach();
    c.begin_call("get_status", b"{}", "tok".to_string(), 5)
        .unwrap();
    let settled = c.finish_call("tok", CallWait::TimedOut);
    assert_eq!(settled, Err(FlowError::Timeout(CALL_TIMEOUT_MS)));
    // a late reply for the timed-out token is dropped in silence
    assert_eq!(c.on_recv_echo("tok"), None);
}

#[test]
fn vanished_producer_means_no_response() {
    let mut c: Correlator<u32> = Correlator::new();
    c.attach();
    c.begin_call("get_status", b"{}", "tok".to_string(), 5)
        .unwrap();
    let settled = c.finish_call("tok", CallWait::Closed);
    assert_eq!(settled, Err(FlowError::NoResponse));
}

#[test]
fn out_of_order_replies_resolve_their_own_callers() {
    // scenario: two concurrent calls; replies arrive in the opposite order
    let mut c: Correlator<&'static str> = Correlator::new();
    c.attach();
    c.begin_call("a", b"{}", "t1".to_string(), "caller-one")
        .unwrap();
    c.begin_call("b", b"{}", "t2".to_string(), "caller-two")
        .unwrap();
    assert_eq!(c.on_recv_echo("t2"), Some("caller-two"));
    assert_eq!(c.on_recv_echo("t1"), Some("caller-one"));
}

#[test]
fn reply_frames_are_classified_by_pending_echo() {
    let mut c: Correlator<u32> = Correlator::new();
    c.attach();
    c.begin_call("get_status", b"{}", "e-1".to_string(), 1)
        .unwrap();
    let reply = "{\"status\":\"ok\",\"retcode\":0,\"data\":null,\"echo\":\"e-1\"}";
    assert_eq!(c.classify(reply), FrameClass::Reply("e-1".to_string()));
}

#[test]
fn frames_without_a_pending_echo_are_events() {
    let c: Correlator<u32> = Correlator::new();
    // an echo nobody is waiting for
    assert_eq!(
        c.classify("{\"echo\":\"stale\",\"retcode\":0}"),
        FrameClass::Push
    );
    // an ordinary event envelope, no echo at all
    assert_eq!(
        c.classify("{\"time\":1,\"self_id\":2,\"post_type\":\"message\"}"),
        FrameClass::Push
    );
    // an echo that is not a string
    assert_eq!(c.classify("{\"echo\":17}"), FrameClass::Push);
    // not json at all
    assert_eq!(c.classify("garbage"), FrameClass::Push);
}

#[test]
fn detach_blocks_further_calls() {
    let mut c: Correlator<u32> = Correlator::new();
    c.attach();
    c.detach();
    let r = c.begin_call("get_status", b"{}", "tok".to_string(), 5);
    assert_eq!(r, Err(FlowError::NoConnection));
}
