//! The transport's flow-control policy and the admission of responses on one
//! connection under its stream bound.

use vstd::prelude::*;
use crate::defaults::{
    DATAGRAM_SIZE_CEILING,
    DEFAULT_ACK_EXPONENT,
    DEFAULT_CONNECTION_TIMEOUT,
    DEFAULT_MAX_ACK_DELAY,
    DEFAULT_MAX_NB_CONNECTIONS,
    DEFAULT_MAX_RECIEVE_WINDOW_SIZE,
    DEFAULT_MAX_STREAMS,
    MAX_ALLOWED_PARTIAL_RESPONSES,
    MAX_DATAGRAM_SIZE,
};

verus! {

/// The limits every connection is held to. Read-only once the process runs.
#[derive(Clone, Copy, Debug, PartialEq, Eq, Structural)]
pub struct FlowControlPolicy {
    /// Upper bound on concurrent streams per connection.
    pub max_streams: u64,
    /// Per-connection receive-buffer ceiling in bytes.
    pub max_receive_window: u64,
    /// Idle time after which a connection is evicted.
    pub connection_timeout: u64,
    /// Upper bound on concurrent connections.
    pub max_connections: u64,
    /// Longest delay before an acknowledgment must be sent.
    pub max_ack_delay: u64,
    /// Acknowledgment-delay exponent of the transport's pacing.
    pub ack_exponent: u64,
    /// Largest unreliable datagram frame.
    pub max_datagram_size: usize,
}

impl FlowControlPolicy {
    /// Most responses that may be in flight on one connection: every stream
    /// but the one kept back for connection-level signalling.
    pub open spec fn spec_max_partial_responses(self) -> nat {
        if self.max_streams == 0 {
            0
        } else {
            (self.max_streams - 1) as nat
        }
    }

    pub fn max_partial_responses(&self) -> (r: u64)
        ensures
            r == self.spec_max_partial_responses(),
    {
        if self.max_streams == 0 {
            0
        } else {
            self.max_streams - 1
        }
    }

    /// Whether the transport can run under these limits: there is a stream to
    /// keep back, and a datagram frame fits the transport's ceiling.
    pub open spec fn spec_is_usable(self) -> bool {
        self.max_streams >= 1 && self.max_datagram_size <= DATAGRAM_SIZE_CEILING
    }

    pub fn is_usable(&self) -> (r: bool)
        ensures
            r == self.spec_is_usable(),
    {
        self.max_streams >= 1 && self.max_datagram_size <= DATAGRAM_SIZE_CEILING
    }
}

impl Default for FlowControlPolicy {
    /// The protocol defaults.
    fn default() -> (r: Self)
        ensures
            r.max_streams == DEFAULT_MAX_STREAMS,
            r.max_receive_window == DEFAULT_MAX_RECIEVE_WINDOW_SIZE,
            r.connection_timeout == DEFAULT_CONNECTION_TIMEOUT,
            r.max_connections == DEFAULT_MAX_NB_CONNECTIONS,
            r.max_ack_delay == DEFAULT_MAX_ACK_DELAY,
            r.ack_exponent == DEFAULT_ACK_EXPONENT,
            r.max_datagram_size == MAX_DATAGRAM_SIZE,
            r.spec_is_usable(),
            r.spec_max_partial_responses() == MAX_ALLOWED_PARTIAL_RESPONSES,
    {
        FlowControlPolicy {
            max_streams: DEFAULT_MAX_STREAMS,
            max_receive_window: DEFAULT_MAX_RECIEVE_WINDOW_SIZE,
            connection_timeout: DEFAULT_CONNECTION_TIMEOUT,
            max_connections: DEFAULT_MAX_NB_CONNECTIONS,
            max_ack_delay: DEFAULT_MAX_ACK_DELAY,
            ack_exponent: DEFAULT_ACK_EXPONENT,
            max_datagram_size: MAX_DATAGRAM_SIZE,
        }
    }
}

/// What the transport is told when it asks to start a response.
#[derive(Clone, Copy, Debug, PartialEq, Eq, Structural)]
pub enum Admission {
    /// The response may start; it now counts as outstanding.
    Admitted,
    /// The connection already holds as many responses as the bound allows.
    ResourceExhaustion,
}

/// What can happen to the responses of a connection.
#[derive(Clone, Copy, Debug, PartialEq, Eq, Structural)]
pub enum StreamEvent {
    /// The transport asks to start a response.
    Open,
    /// A response was delivered in full.
    Complete,
}

/// The number of outstanding responses after `event`, where `outstanding`
/// were in flight before it on a connection bound by `limit`.
pub open spec fn after_event(limit: nat, outstanding: nat, event: StreamEvent) -> nat {
    match event {
        StreamEvent::Open => if outstanding < limit {
            outstanding + 1
        } else {
            outstanding
        },
        StreamEvent::Complete => if outstanding > 0 {
            (outstanding - 1) as nat
        } else {
            0
        },
    }
}

/// The number of outstanding responses after a whole history of events on a
/// connection that started with none.
pub open spec fn after_history(limit: nat, history: Seq<StreamEvent>) -> nat
    decreases history.len(),
{
    if history.len() == 0 {
        0
    } else {
        after_event(limit, after_history(limit, history.drop_last()), history.last())
    }
}

/// Whatever the transport asks for and in whatever order, a connection never
/// holds more outstanding responses than its bound.
pub proof fn lemma_stream_bound_holds(limit: nat, history: Seq<StreamEvent>)
    ensures
        after_history(limit, history) <= limit,
    decreases history.len(),
{
    if history.len() > 0 {
        lemma_stream_bound_holds(limit, history.drop_last());
    }
}

/// Under the protocol defaults no history leaves more than 98303 responses
/// outstanding.
pub proof fn lemma_default_stream_bound(history: Seq<StreamEvent>)
    ensures
        after_history(MAX_ALLOWED_PARTIAL_RESPONSES as nat, history)
            <= MAX_ALLOWED_PARTIAL_RESPONSES,
        MAX_ALLOWED_PARTIAL_RESPONSES == DEFAULT_MAX_STREAMS - 1,
{
    lemma_stream_bound_holds(MAX_ALLOWED_PARTIAL_RESPONSES as nat, history);
}

/// Count of the responses that are in flight on one connection.
#[derive(Debug)]
pub struct PartialResponses {
    limit: u64,
    outstanding: u64,
}

impl PartialResponses {
    #[verifier::type_invariant]
    closed spec fn bounded(self) -> bool {
        self.outstanding <= self.limit
    }

    /// Most responses that may be outstanding at once.
    pub closed spec fn spec_limit(self) -> nat {
        self.limit as nat
    }

    /// Responses that are outstanding now.
    pub closed spec fn spec_outstanding(self) -> nat {
        self.outstanding as nat
    }

    /// A connection with nothing in flight, bound by the protocol default.
    pub fn new() -> (r: Self)
        ensures
            r.spec_limit() == MAX_ALLOWED_PARTIAL_RESPONSES,
            r.spec_outstanding() == 0,
    {
        PartialResponses { limit: MAX_ALLOWED_PARTIAL_RESPONSES, outstanding: 0 }
    }

    /// A connection with nothing in flight, bound as `policy` says.
    pub fn with_policy(policy: &FlowControlPolicy) -> (r: Self)
        ensures
            r.spec_limit() == policy.spec_max_partial_responses(),
            r.spec_outstanding() == 0,
    {
        PartialResponses { limit: policy.max_partial_responses(), outstanding: 0 }
    }

    pub fn limit(&self) -> (r: u64)
        ensures
            r == self.spec_limit(),
    {
        self.limit
    }

    pub fn outstanding(&self) -> (r: u64)
        ensures
            r == self.spec_outstanding(),
            r <= self.spec_limit(),
    {
        proof {
            use_type_invariant(self);
        }
        self.outstanding
    }

    /// Asks to start one more response. It is admitted exactly when fewer
    /// than the bound are outstanding; otherwise nothing changes.
    pub fn try_open(&mut self) -> (r: Admission)
        ensures
            final(self).spec_limit() == old(self).spec_limit(),
            final(self).spec_outstanding() == after_event(
                old(self).spec_limit(),
                old(self).spec_outstanding(),
                StreamEvent::Open,
            ),
            final(self).spec_outstanding() <= final(self).spec_limit(),
            r == if old(self).spec_outstanding() < old(self).spec_limit() {
                Admission::Admitted
            } else {
                Admission::ResourceExhaustion
            },
    {
        proof {
            use_type_invariant(&*self);
        }
        if self.outstanding < self.limit {
            self.outstanding = self.outstanding + 1;
            Admission::Admitted
        } else {
            Admission::ResourceExhaustion
        }
    }

    /// Records that one response was delivered in full. Returns whether
    /// there was one to complete; with none outstanding nothing changes.
    pub fn complete(&mut self) -> (r: bool)
        ensures
            final(self).spec_limit() == old(self).spec_limit(),
            final(self).spec_outstanding() == after_event(
                old(self).spec_limit(),
                old(self).spec_outstanding(),
                StreamEvent::Complete,
            ),
            final(self).spec_outstanding() <= final(self).spec_limit(),
            r == (old(self).spec_outstanding() > 0),
    {
        proof {
            use_type_invariant(&*self);
        }
        if self.outstanding > 0 {
            self.outstanding = self.outstanding - 1;
            true
        } else {
            false
        }
    }

    /// Applies one event. Only a request to open can be turned down.
    pub fn apply(&mut self, event: StreamEvent) -> (r: Admission)
        ensures
            final(self).spec_limit() == old(self).spec_limit(),
            final(self).spec_outstanding() == after_event(
                old(self).spec_limit(),
                old(self).spec_outstanding(),
                event,
            ),
            final(self).spec_outstanding() <= final(self).spec_limit(),
            r == if event == StreamEvent::Open && old(self).spec_outstanding() >= old(
                self,
            ).spec_limit() {
                Admission::ResourceExhaustion
            } else {
                Admission::Admitted
            },
    {
        match event {
            StreamEvent::Open => self.try_open(),
            StreamEvent::Complete => {
                self.complete();
                Admission::Admitted
            },
        }
    }
}

} // verus!
