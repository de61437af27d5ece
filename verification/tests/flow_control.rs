use quic_geyser_common::defaults::MAX_ALLOWED_PARTIAL_RESPONSES;
use quic_geyser_common::flow_control::{
    Admission, FlowControlPolicy, PartialResponses, StreamEvent,
};

fn policy_with_streams(max_streams: u64) -> FlowControlPolicy {
    let mut policy = FlowControlPolicy::default();
    policy.max_streams = max_streams;
    policy
}

#[test]
fn new_connection_holds_nothing() {
    let c = PartialResponses::new();
    assert_eq!(c.outstanding(), 0);
    assert_eq!(c.limit(), MAX_ALLOWED_PARTIAL_RESPONSES);
    assert_eq!(c.limit(), 98303);
}

#[test]
fn default_policy_has_the_documented_values() {
    let p = FlowControlPolicy::default();
    assert_eq!(p.max_streams, 98304);
    assert_eq!(p.max_receive_window, 256 * 1024 * 1024);
    assert_eq!(p.connection_timeout, 10);
    assert_eq!(p.max_connections, 10);
    assert_eq!(p.max_ack_delay, 100);
    assert_eq!(p.ack_exponent, 3);
    assert_eq!(p.max_datagram_size, 1350);
    assert_eq!(p.max_partial_responses(), 98303);
    assert!(p.is_usable());
}

#[test]
fn one_stream_is_kept_back() {
    assert_eq!(policy_with_streams(5).max_partial_responses(), 4);
    assert_eq!(policy_with_streams(1).max_partial_responses(), 0);
    assert_eq!(policy_with_streams(0).max_partial_responses(), 0);
    assert_eq!(policy_with_streams(u64::MAX).max_partial_responses(), u64::MAX - 1);
}

#[test]
fn policy_without_streams_or_with_oversized_datagrams_is_unusable() {
    assert!(!policy_with_streams(0).is_usable());
    let mut p = FlowControlPolicy::default();
    p.max_datagram_size = 65527;
    assert!(p.is_usable());
    p.max_datagram_size = 65528;
    assert!(!p.is_usable());
}

#[test]
fn open_is_refused_at_the_bound() {
    let mut c = PartialResponses::with_policy(&policy_with_streams(4));
    assert_eq!(c.limit(), 3);
    assert_eq!(c.try_open(), Admission::Admitted);
    assert_eq!(c.try_open(), Admission::Admitted);
    assert_eq!(c.try_open(), Admission::Admitted);
    assert_eq!(c.outstanding(), 3);
    assert_eq!(c.try_open(), Admission::ResourceExhaustion);
    assert_eq!(c.try_open(), Admission::ResourceExhaustion);
    assert_eq!(c.outstanding(), 3);
}

#[test]
fn completion_frees_a_slot() {
    let mut c = PartialResponses::with_policy(&policy_with_streams(2));
    assert_eq!(c.try_open(), Admission::Admitted);
    assert_eq!(c.try_open(), Admission::ResourceExhaustion);
    assert!(c.complete());
    assert_eq!(c.outstanding(), 0);
    assert_eq!(c.try_open(), Admission::Admitted);
    assert_eq!(c.outstanding(), 1);
}

#[test]
fn completing_nothing_changes_nothing() {
    let mut c = PartialResponses::new();
    assert!(!c.complete());
    assert_eq!(c.outstanding(), 0);
    assert_eq!(c.limit(), 98303);
}

#[test]
fn connection_with_a_single_stream_admits_nothing() {
    let mut c = PartialResponses::with_policy(&policy_with_streams(1));
    assert_eq!(c.limit(), 0);
    assert_eq!(c.try_open(), Admission::ResourceExhaustion);
    assert_eq!(c.outstanding(), 0);
}

#[test]
fn default_connection_never_exceeds_its_bound() {
    let mut c = PartialResponses::new();
    let mut admitted: u64 = 0;
    for _ in 0..(MAX_ALLOWED_PARTIAL_RESPONSES + 10) {
        if c.try_open() == Admission::Admitted {
            admitted += 1;
        }
        assert!(c.outstanding() <= MAX_ALLOWED_PARTIAL_RESPONSES);
    }
    assert_eq!(admitted, 98303);
    assert_eq!(c.outstanding(), 98303);
    assert_eq!(c.try_open(), Admission::ResourceExhaustion);
}

#[test]
fn events_are_applied_in_order() {
    let mut c = PartialResponses::with_policy(&policy_with_streams(3));
    let history = [
        StreamEvent::Open,
        StreamEvent::Open,
        StreamEvent::Open,
        StreamEvent::Complete,
        StreamEvent::Open,
        StreamEvent::Complete,
        StreamEvent::Complete,
        StreamEvent::Complete,
    ];
    let expected = [
        (Admission::Admitted, 1),
        (Admission::Admitted, 2),
        (Admission::ResourceExhaustion, 2),
        (Admission::Admitted, 1),
        (Admission::Admitted, 2),
        (Admission::Admitted, 1),
        (Admission::Admitted, 0),
        (Admission::Admitted, 0),
    ];
    for (event, (verdict, outstanding)) in history.iter().zip(expected.iter()) {
        assert_eq!(c.apply(*event), *verdict);
        assert_eq!(c.outstanding(), *outstanding);
        assert!(c.outstanding() <= c.limit());
    }
}
