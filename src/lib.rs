//! Validation of traffic-generation requests.
//!
//! A request lists streams (packet templates) and per-port settings (concrete
//! header values). Before it reaches the packet generator, `validate_request`
//! checks the request for structural and hardware consistency and reports the
//! first rule that it breaks. The spec function `verdict` states the rules and
//! their order; the proof functions of `laws` state consequences of them.
mod laws;
mod limits;
mod message;
mod types;
mod validate;

pub use laws::{
    is_mpls_stack_error, matching_mpls_stacks_pass, mismatched_mpls_stack_is_rejected,
    mpls_stacks_match, mpls_without_labels_is_rejected, srv6_without_tofino2_is_rejected,
    validation_is_deterministic, vxlan_over_ipv6_is_rejected, vxlan_over_srv6_is_rejected,
};
pub use limits::{
    FRAME_GAP_BYTES, MAX_BUFFER_SIZE, MAX_NUM_MPLS_LABEL, MAX_NUM_SRV6_SIDS, TG_MAX_RATE_GBPS,
    TG_MAX_RATE_TF2_GBPS,
};
pub use message::{decimal, digit_char, message_text};
pub use types::{
    Encapsulation, GenerationMode, Ipv4Settings, Ipv6Settings, MplsHeader, Stream, StreamSetting,
    ValidationError, VlanSettings, VxlanSettings,
};
pub use validate::{
    aggregate_rate, carries_ip_header, encapsulation_counts_present, encapsulation_fault,
    first_setting_fault, first_stream_fault, pair_fault, rate_ceiling, setting_fault,
    stream_fault, stream_rate, total_frame_size, validate_request, verdict, vxlan_fault,
};
