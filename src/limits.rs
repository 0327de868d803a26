//! Fixed hardware limits of the traffic generator.
use vstd::prelude::*;

verus! {

/// Largest number of MPLS label stack entries a stream may carry.
pub const MAX_NUM_MPLS_LABEL: u8 = 15;

/// Largest number of SRv6 segment identifiers a stream may carry.
pub const MAX_NUM_SRV6_SIDS: u8 = 3;

/// Largest sum of frame sizes, in bytes, over all streams of a request.
pub const MAX_BUFFER_SIZE: u32 = 7000;

/// Largest aggregate rate, in Gbit/s, on standard hardware.
pub const TG_MAX_RATE_GBPS: u64 = 100;

/// Largest aggregate rate, in Gbit/s, on Tofino2 hardware.
pub const TG_MAX_RATE_TF2_GBPS: u64 = 400;

/// Bytes added to every frame on the wire: preamble, start delimiter and
/// inter-frame gap.
pub const FRAME_GAP_BYTES: u64 = 20;

} // verus!
