//! The protocol vocabulary: host-delivered events and queries, and the
//! answers the engine gives.
//!
//! Events and queries arrive per endpoint from the host. Each is either
//! handled by the engine or reported back as unhandled so the host's
//! default handling takes over.

use vstd::prelude::*;
use crate::caps::MediaFormat;

verus! {

/// The reported minimum latency, in host time units.
pub const MIN_LATENCY: u64 = 1000000;

/// The reported maximum latency, in host time units.
pub const MAX_LATENCY: u64 = 100000000;

/// The direction of an endpoint.
#[derive(Clone, Copy, Debug, PartialEq, Eq, Structural)]
pub enum Direction {
    /// Data flows into the stage.
    Input,
    /// Data flows out of the stage.
    Output,
}

/// A host-delivered event.
#[derive(Clone, Copy, Debug, PartialEq, Eq, Structural)]
pub enum Event {
    /// Data flow is being flushed: quiesce and reset synchronization state.
    FlushStart,
    /// Flushing ended: re-arm if the stage's current-or-pending state is
    /// Playing.
    FlushStop,
    /// No more data will arrive: quiesce.
    EndOfStream,
    /// Acknowledged without a state change.
    Reconfigure,
    /// Acknowledged without a state change.
    Latency,
    /// Acknowledged without a state change.
    StreamStart,
    /// Acknowledged without a state change.
    Caps,
    /// Acknowledged without a state change.
    Tag,
    /// Acknowledged without a state change.
    Segment,
    /// Acknowledged without a state change.
    Qos,
    /// Acknowledged without a state change.
    StreamGroupDone,
    /// Anything else: delegated to the host's default handling.
    Other,
}

/// A host-delivered query.
#[derive(Debug)]
pub enum Query {
    /// How much latency the stage introduces.
    Latency,
    /// Which scheduling modes the stage supports.
    Scheduling,
    /// Whether the stage would accept a proposed format.
    AcceptCaps,
    /// Which formats an endpoint supports, optionally narrowed by a
    /// filter.
    Caps {
        /// The direction of the queried endpoint.
        direction: Direction,
        /// The queried endpoint's index within its direction.
        idx: usize,
        /// An optional filter to intersect with the declared format.
        filter: Option<MediaFormat>,
    },
    /// Whether and where the stage can seek.
    Seeking,
    /// Anything else: delegated to the host's default handling.
    Other,
}

/// The engine's answer to a handled query.
#[derive(Debug)]
pub enum QueryResponse {
    /// Not live; latency between the fixed minimum and maximum.
    Latency {
        /// Whether the stage is a live source.
        live: bool,
        /// The minimum latency, in host time units.
        min_latency: u64,
        /// The maximum latency, in host time units.
        max_latency: u64,
    },
    /// Sequential push-mode scheduling only.
    Scheduling {
        /// Whether processing is sequential.
        sequential: bool,
        /// Whether push-mode scheduling is supported.
        push_mode: bool,
        /// The minimum buffer size.
        min_size: i32,
        /// The maximum buffer size; negative means no maximum.
        max_size: i32,
        /// The required alignment; zero means none.
        align: i32,
    },
    /// Whether the proposed format was accepted.
    AcceptCaps {
        /// Always accepted: the engine does not validate proposals against
        /// the declared formats.
        accepted: bool,
    },
    /// The formats the queried endpoint supports.
    Caps {
        /// The resolved format descriptor.
        caps: MediaFormat,
    },
    /// Not seekable.
    Seeking {
        /// Whether seeking is supported.
        seekable: bool,
        /// The earliest seekable position.
        start: u64,
        /// The latest seekable position.
        stop: u64,
    },
}

/// Whether the engine handles an event itself; anything it does not
/// recognize is delegated to the host's default handling.
pub open spec fn event_handled(e: Event) -> bool {
    !(e is Other)
}

} // verus!
