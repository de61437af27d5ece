//! Protocol-wide defaults of the transport.

use vstd::prelude::*;

verus! {

/// Upper bound on concurrent streams per connection.
pub const DEFAULT_MAX_STREAMS: u64 = 96 * 1024;

/// Most responses that may be in flight on one connection: one stream is kept
/// back for connection-level signalling.
pub const MAX_ALLOWED_PARTIAL_RESPONSES: u64 = DEFAULT_MAX_STREAMS - 1;

/// Per-connection receive-buffer ceiling in bytes (256 MiB).
pub const DEFAULT_MAX_RECIEVE_WINDOW_SIZE: u64 = 256 * 1024 * 1024;

/// Idle time after which a connection is evicted.
pub const DEFAULT_CONNECTION_TIMEOUT: u64 = 10;

/// Upper bound on concurrent connections.
pub const DEFAULT_MAX_NB_CONNECTIONS: u64 = 10;

/// Longest delay before an acknowledgment must be sent.
pub const DEFAULT_MAX_ACK_DELAY: u64 = 100;

/// Acknowledgment-delay exponent of the transport's pacing.
pub const DEFAULT_ACK_EXPONENT: u64 = 3;

/// Largest unreliable datagram frame this protocol sends.
pub const MAX_DATAGRAM_SIZE: usize = 1350;

/// Largest datagram frame the transport can carry at all.
pub const DATAGRAM_SIZE_CEILING: usize = 65527;

/// Application-layer protocol identifier, the ASCII bytes of `geyser`.
pub const ALPN_GEYSER_PROTOCOL_ID: [u8; 6] = [103, 101, 121, 115, 101, 114];

/// The protocol defaults are consistent with one another.
pub proof fn lemma_defaults_consistent()
    ensures
        DEFAULT_MAX_STREAMS == 98304,
        MAX_ALLOWED_PARTIAL_RESPONSES + 1 == DEFAULT_MAX_STREAMS,
        DEFAULT_MAX_RECIEVE_WINDOW_SIZE == 268435456,
        MAX_DATAGRAM_SIZE <= DATAGRAM_SIZE_CEILING,
{
}

} // verus!
