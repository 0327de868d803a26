//! The rules a request must satisfy, and the function that checks them.
//!
//! The rules are checked in a fixed order and the first one broken is
//! reported. `verdict` states that order; `validate_request` computes it.
use crate::limits::{
    FRAME_GAP_BYTES, MAX_BUFFER_SIZE, MAX_NUM_MPLS_LABEL, MAX_NUM_SRV6_SIDS, TG_MAX_RATE_GBPS,
    TG_MAX_RATE_TF2_GBPS,
};
use crate::types::{Encapsulation, GenerationMode, Stream, StreamSetting, ValidationError};
use vstd::prelude::*;

verus! {

/// What is wrong with a stream's own encapsulation fields, if anything.
pub open spec fn encapsulation_fault(s: Stream, is_tofino2: bool) -> Option<ValidationError> {
    match s.encapsulation {
        Encapsulation::Mpls => match s.number_of_lse {
            None => Some(ValidationError::MissingLseCount { stream_id: s.stream_id }),
            Some(n) => if n > MAX_NUM_MPLS_LABEL {
                Some(ValidationError::TooManyLse { stream_id: s.stream_id })
            } else if n == 0 {
                Some(ValidationError::ZeroLse { stream_id: s.stream_id })
            } else {
                None
            },
        },
        Encapsulation::SRv6 => if !is_tofino2 {
            Some(ValidationError::Srv6Unsupported)
        } else {
            match s.number_of_srv6_sids {
                None => Some(ValidationError::MissingSidCount { stream_id: s.stream_id }),
                Some(n) => if n > MAX_NUM_SRV6_SIDS {
                    Some(ValidationError::TooManySids { stream_id: s.stream_id })
                } else if n == 0 {
                    Some(ValidationError::ZeroSids { stream_id: s.stream_id })
                } else {
                    None
                },
            }
        },
        _ => None,
    }
}

/// Whether the packets of `s` carry an IP header whose settings are checked:
/// always, but for SRv6 streams that do not tunnel one.
pub open spec fn carries_ip_header(s: Stream) -> bool {
    s.encapsulation != Encapsulation::SRv6 || s.srv6_ip_tunneling != Some(false)
}

/// Whether the fields that `s`'s encapsulation needs are present.
pub open spec fn encapsulation_counts_present(s: Stream) -> bool {
    &&& s.encapsulation == Encapsulation::Mpls ==> s.number_of_lse is Some
    &&& s.encapsulation == Encapsulation::SRv6 ==> s.number_of_srv6_sids is Some
}

/// What is wrong with setting `t` of stream `s` (the two share a stream id),
/// if anything. Read only for streams whose encapsulation fields passed.
pub open spec fn setting_fault(s: Stream, t: StreamSetting) -> Option<ValidationError> {
    let id = s.stream_id;
    let port = t.port;
    if (s.encapsulation == Encapsulation::Vlan || s.encapsulation == Encapsulation::QinQ)
        && t.vlan is None {
        Some(ValidationError::MissingVlan { stream_id: id, port })
    } else if s.encapsulation == Encapsulation::Mpls && t.mpls_stack is None {
        Some(ValidationError::MissingMplsStack { stream_id: id, port })
    } else if s.encapsulation == Encapsulation::Mpls && t.mpls_stack.unwrap()@.len()
        != s.number_of_lse.unwrap() as nat {
        Some(ValidationError::MplsStackMismatch { stream_id: t.stream_id })
    } else if s.encapsulation == Encapsulation::SRv6 && t.sid_list is None {
        Some(ValidationError::MissingSidList { stream_id: id, port })
    } else if s.encapsulation == Encapsulation::SRv6 && t.sid_list.unwrap()@.len()
        != s.number_of_srv6_sids.unwrap() as nat {
        Some(ValidationError::SidListMismatch { stream_id: t.stream_id })
    } else if carries_ip_header(s) && s.ip_version is Some && s.ip_version != Some(4u8)
        && s.ip_version != Some(6u8) {
        Some(ValidationError::UnsupportedIpVersion { stream_id: id, port })
    } else if carries_ip_header(s) && s.ip_version == Some(4u8) && t.ip is None {
        Some(ValidationError::MissingIpv4 { stream_id: id, port })
    } else if carries_ip_header(s) && s.ip_version == Some(6u8) && t.ipv6 is None {
        Some(ValidationError::MissingIpv6 { stream_id: id, port })
    } else {
        None
    }
}

/// What is wrong with VxLAN stream `s` when checked against setting `t`,
/// whichever stream `t` belongs to.
pub open spec fn vxlan_fault(s: Stream, t: StreamSetting) -> Option<ValidationError> {
    if s.vxlan && t.vxlan is None {
        Some(ValidationError::MissingVxlan { stream_id: s.stream_id })
    } else if s.vxlan && s.ip_version == Some(6u8) {
        Some(ValidationError::VxlanWithIpv6 { stream_id: s.stream_id })
    } else if s.vxlan && s.encapsulation == Encapsulation::SRv6 {
        Some(ValidationError::VxlanWithSrv6 { stream_id: s.stream_id })
    } else {
        None
    }
}

/// The fault found when stream `s` meets setting `t`: the setting's own
/// checks if it belongs to `s`, then the VxLAN checks.
pub open spec fn pair_fault(s: Stream, t: StreamSetting) -> Option<ValidationError> {
    if t.stream_id == s.stream_id && setting_fault(s, t) is Some {
        setting_fault(s, t)
    } else {
        vxlan_fault(s, t)
    }
}

/// The first fault of stream `s` against the first `k` settings of `ts`.
pub open spec fn first_setting_fault(s: Stream, ts: Seq<StreamSetting>, k: int) -> Option<
    ValidationError,
>
    decreases k,
{
    if k <= 0 {
        None
    } else {
        match first_setting_fault(s, ts, k - 1) {
            Some(e) => Some(e),
            None => pair_fault(s, ts[k - 1]),
        }
    }
}

/// The first fault of stream `s`: its own fields, then each setting in turn.
pub open spec fn stream_fault(s: Stream, ts: Seq<StreamSetting>, is_tofino2: bool) -> Option<
    ValidationError,
> {
    match encapsulation_fault(s, is_tofino2) {
        Some(e) => Some(e),
        None => first_setting_fault(s, ts, ts.len() as int),
    }
}

/// The first fault among the first `k` streams of `ss`.
pub open spec fn first_stream_fault(
    ss: Seq<Stream>,
    ts: Seq<StreamSetting>,
    is_tofino2: bool,
    k: int,
) -> Option<ValidationError>
    decreases k,
{
    if k <= 0 {
        None
    } else {
        match first_stream_fault(ss, ts, is_tofino2, k - 1) {
            Some(e) => Some(e),
            None => stream_fault(ss[k - 1], ts, is_tofino2),
        }
    }
}

/// Sum of the frame sizes of the first `k` streams of `ss`.
pub open spec fn total_frame_size(ss: Seq<Stream>, k: int) -> int
    decreases k,
{
    if k <= 0 {
        0
    } else {
        total_frame_size(ss, k - 1) + ss[k - 1].frame_size
    }
}

/// The bit rate of stream `s`, in kbit/s, given its encapsulation overhead in
/// bytes. In `Mpps` mode a frame occupies its size, its overhead and the gap
/// on the wire, eight bits a byte.
pub open spec fn stream_rate(s: Stream, overhead: u32, mode: GenerationMode) -> int {
    if mode == GenerationMode::Mpps {
        (s.frame_size + overhead + FRAME_GAP_BYTES) * 8 * s.traffic_rate
    } else {
        s.traffic_rate * 1000
    }
}

/// The summed bit rate, in kbit/s, of the first `k` streams of `ss`, where
/// `os[i]` is the encapsulation overhead of `ss[i]`.
pub open spec fn aggregate_rate(ss: Seq<Stream>, os: Seq<u32>, mode: GenerationMode, k: int) -> int
    decreases k,
{
    if k <= 0 {
        0
    } else {
        aggregate_rate(ss, os, mode, k - 1) + stream_rate(ss[k - 1], os[k - 1], mode)
    }
}

/// The largest aggregate rate, in kbit/s, that the hardware sustains.
pub open spec fn rate_ceiling(is_tofino2: bool) -> int {
    (if is_tofino2 {
        TG_MAX_RATE_TF2_GBPS
    } else {
        TG_MAX_RATE_GBPS
    }) * 1_000_000
}

/// The outcome of validating a request: the first broken rule, in the order
/// streams (each with every setting), total frame size, emptiness, rate.
pub open spec fn verdict(
    ss: Seq<Stream>,
    ts: Seq<StreamSetting>,
    os: Seq<u32>,
    mode: GenerationMode,
    is_tofino2: bool,
) -> Result<(), ValidationError> {
    match first_stream_fault(ss, ts, is_tofino2, ss.len() as int) {
        Some(e) => Err(e),
        None => if total_frame_size(ss, ss.len() as int) > MAX_BUFFER_SIZE {
            Err(ValidationError::BufferExceeded)
        } else if mode != GenerationMode::Analyze && ts.len() == 0 {
            Err(ValidationError::NoSettings)
        } else if mode != GenerationMode::Analyze && ss.len() == 0 {
            Err(ValidationError::NoStreams)
        } else if mode != GenerationMode::Analyze && aggregate_rate(ss, os, mode, ss.len() as int)
            > rate_ceiling(is_tofino2) {
            Err(ValidationError::RateExceeded)
        } else {
            Ok(())
        }
    }
}

pub(crate) proof fn lemma_first_setting_fault_stable(s: Stream, ts: Seq<StreamSetting>, a: int, b: int)
    requires
        0 <= a <= b,
        first_setting_fault(s, ts, a) is Some,
    ensures
        first_setting_fault(s, ts, b) == first_setting_fault(s, ts, a),
    decreases b - a,
{
    if a < b {
        lemma_first_setting_fault_stable(s, ts, a, b - 1);
    }
}

pub(crate) proof fn lemma_first_stream_fault_stable(
    ss: Seq<Stream>,
    ts: Seq<StreamSetting>,
    is_tofino2: bool,
    a: int,
    b: int,
)
    requires
        0 <= a <= b,
        first_stream_fault(ss, ts, is_tofino2, a) is Some,
    ensures
        first_stream_fault(ss, ts, is_tofino2, b) == first_stream_fault(ss, ts, is_tofino2, a),
    decreases b - a,
{
    if a < b {
        lemma_first_stream_fault_stable(ss, ts, is_tofino2, a, b - 1);
    }
}

proof fn lemma_total_frame_size_monotone(ss: Seq<Stream>, a: int, b: int)
    requires
        0 <= a <= b <= ss.len(),
    ensures
        total_frame_size(ss, a) <= total_frame_size(ss, b),
    decreases b - a,
{
    if a < b {
        lemma_total_frame_size_monotone(ss, a, b - 1);
    }
}

proof fn lemma_aggregate_rate_monotone(
    ss: Seq<Stream>,
    os: Seq<u32>,
    mode: GenerationMode,
    a: int,
    b: int,
)
    requires
        0 <= a <= b <= ss.len(),
        os.len() == ss.len(),
    ensures
        aggregate_rate(ss, os, mode, a) <= aggregate_rate(ss, os, mode, b),
    decreases b - a,
{
    if a < b {
        lemma_aggregate_rate_monotone(ss, os, mode, a, b - 1);
        let s = ss[b - 1];
        let o = os[b - 1];
        assert(stream_rate(s, o, mode) >= 0) by (nonlinear_arith)
            requires
                stream_rate(s, o, mode) == if mode == GenerationMode::Mpps {
                    (s.frame_size + o + FRAME_GAP_BYTES) * 8 * s.traffic_rate
                } else {
                    s.traffic_rate * 1000
                },
                s.frame_size >= 0,
                o >= 0,
                s.traffic_rate >= 0,
        ;
    }
}

/// A fault of stream `ss[i]` against setting `ts[j]`, with none before it,
/// is the fault of the whole request.
proof fn lemma_settings_fault_ends_request(
    ss: Seq<Stream>,
    ts: Seq<StreamSetting>,
    is_tofino2: bool,
    i: int,
    j: int,
)
    requires
        0 <= i < ss.len(),
        0 <= j < ts.len(),
        first_stream_fault(ss, ts, is_tofino2, i) is None,
        encapsulation_fault(ss[i], is_tofino2) is None,
        first_setting_fault(ss[i], ts, j) is None,
        pair_fault(ss[i], ts[j]) is Some,
    ensures
        first_stream_fault(ss, ts, is_tofino2, ss.len() as int) == pair_fault(ss[i], ts[j]),
{
    lemma_first_setting_fault_stable(ss[i], ts, j + 1, ts.len() as int);
    lemma_first_stream_fault_stable(ss, ts, is_tofino2, i + 1, ss.len() as int);
}

fn check_encapsulation(s: &Stream, is_tofino2: bool) -> (r: Option<ValidationError>)
    ensures
        r == encapsulation_fault(*s, is_tofino2),
        r is None ==> encapsulation_counts_present(*s),
{
    match s.encapsulation {
        Encapsulation::Mpls => match s.number_of_lse {
            None => Some(ValidationError::MissingLseCount { stream_id: s.stream_id }),
            Some(n) => if n > MAX_NUM_MPLS_LABEL {
                Some(ValidationError::TooManyLse { stream_id: s.stream_id })
            } else if n == 0 {
                Some(ValidationError::ZeroLse { stream_id: s.stream_id })
            } else {
                None
            },
        },
        Encapsulation::SRv6 => if !is_tofino2 {
            Some(ValidationError::Srv6Unsupported)
        } else {
            match s.number_of_srv6_sids {
                None => Some(ValidationError::MissingSidCount { stream_id: s.stream_id }),
                Some(n) => if n > MAX_NUM_SRV6_SIDS {
                    Some(ValidationError::TooManySids { stream_id: s.stream_id })
                } else if n == 0 {
                    Some(ValidationError::ZeroSids { stream_id: s.stream_id })
                } else {
                    None
                },
            }
        },
        _ => None,
    }
}

fn check_setting(s: &Stream, t: &StreamSetting) -> (r: Option<ValidationError>)
    requires
        encapsulation_counts_present(*s),
    ensures
        r == setting_fault(*s, *t),
{
    let id = s.stream_id;
    let port = t.port;
    let is_mpls = s.encapsulation == Encapsulation::Mpls;
    let is_srv6 = s.encapsulation == Encapsulation::SRv6;
    if (s.encapsulation == Encapsulation::Vlan || s.encapsulation == Encapsulation::QinQ)
        && t.vlan.is_none() {
        return Some(ValidationError::MissingVlan { stream_id: id, port });
    }
    if is_mpls {
        match &t.mpls_stack {
            None => {
                return Some(ValidationError::MissingMplsStack { stream_id: id, port });
            },
            Some(stack) => {
                if stack.len() != s.number_of_lse.unwrap() as usize {
                    return Some(ValidationError::MplsStackMismatch { stream_id: t.stream_id });
                }
            },
        }
    }
    if is_srv6 {
        match &t.sid_list {
            None => {
                return Some(ValidationError::MissingSidList { stream_id: id, port });
            },
            Some(sids) => {
                if sids.len() != s.number_of_srv6_sids.unwrap() as usize {
                    return Some(ValidationError::SidListMismatch { stream_id: t.stream_id });
                }
            },
        }
    }
    let checks_ip = !is_srv6 || s.srv6_ip_tunneling != Some(false);
    if checks_ip {
        match s.ip_version {
            Some(4u8) => if t.ip.is_none() {
                return Some(ValidationError::MissingIpv4 { stream_id: id, port });
            },
            Some(6u8) => if t.ipv6.is_none() {
                return Some(ValidationError::MissingIpv6 { stream_id: id, port });
            },
            Some(_) => {
                return Some(ValidationError::UnsupportedIpVersion { stream_id: id, port });
            },
            None => {},
        }
    }
    None
}

fn check_vxlan(s: &Stream, t: &StreamSetting) -> (r: Option<ValidationError>)
    ensures
        r == vxlan_fault(*s, *t),
{
    if s.vxlan && t.vxlan.is_none() {
        Some(ValidationError::MissingVxlan { stream_id: s.stream_id })
    } else if s.vxlan && s.ip_version == Some(6u8) {
        Some(ValidationError::VxlanWithIpv6 { stream_id: s.stream_id })
    } else if s.vxlan && s.encapsulation == Encapsulation::SRv6 {
        Some(ValidationError::VxlanWithSrv6 { stream_id: s.stream_id })
    } else {
        None
    }
}

/// Validates a traffic-generation request: `streams`, their per-port
/// `settings`, the generation `mode`, and whether the target hardware is a
/// Tofino2. `overheads[i]` is the byte overhead of the encapsulation headers
/// of `streams[i]`; it counts only in `GenerationMode::Mpps`.
///
/// Returns `Ok(())` when every rule holds, else the first rule broken.
pub fn validate_request(
    streams: &[Stream],
    settings: &[StreamSetting],
    mode: &GenerationMode,
    is_tofino2: bool,
    overheads: &[u32],
) -> (r: Result<(), ValidationError>)
    requires
        overheads@.len() == streams@.len(),
    ensures
        r == verdict(streams@, settings@, overheads@, *mode, is_tofino2),
{
    let ghost ss = streams@;
    let ghost ts = settings@;
    let mut i: usize = 0;
    while i < streams.len()
        invariant
            i <= ss.len(),
            ss == streams@,
            ts == settings@,
            first_stream_fault(ss, ts, is_tofino2, i as int) is None,
        decreases ss.len() - i,
    {
        let s = &streams[i];
        if let Some(e) = check_encapsulation(s, is_tofino2) {
            proof {
                lemma_first_stream_fault_stable(ss, ts, is_tofino2, i + 1, ss.len() as int);
            }
            return Err(e);
        }
        let mut j: usize = 0;
        while j < settings.len()
            invariant
                i < ss.len(),
                j <= ts.len(),
                ss == streams@,
                ts == settings@,
                *s == ss[i as int],
                encapsulation_fault(*s, is_tofino2) is None,
                encapsulation_counts_present(*s),
                first_stream_fault(ss, ts, is_tofino2, i as int) is None,
                first_setting_fault(*s, ts, j as int) is None,
            decreases ts.len() - j,
        {
            let t = &settings[j];
            if t.stream_id == s.stream_id {
                if let Some(e) = check_setting(s, t) {
                    proof {
                        lemma_settings_fault_ends_request(ss, ts, is_tofino2, i as int, j as int);
                    }
                    return Err(e);
                }
            }
            if let Some(e) = check_vxlan(s, t) {
                proof {
                    lemma_settings_fault_ends_request(ss, ts, is_tofino2, i as int, j as int);
                }
                return Err(e);
            }
            j += 1;
        }
        i += 1;
    }
    assert(first_stream_fault(ss, ts, is_tofino2, ss.len() as int) is None);

    let mut total: u64 = 0;
    let mut k: usize = 0;
    while k < streams.len()
        invariant
            k <= ss.len(),
            ss == streams@,
            total == total_frame_size(ss, k as int),
            total <= MAX_BUFFER_SIZE,
            ts == settings@,
            first_stream_fault(ss, ts, is_tofino2, ss.len() as int) is None,
        decreases ss.len() - k,
    {
        total = total + streams[k].frame_size as u64;
        if total > MAX_BUFFER_SIZE as u64 {
            proof {
                lemma_total_frame_size_monotone(ss, k + 1, ss.len() as int);
            }
            return Err(ValidationError::BufferExceeded);
        }
        k += 1;
    }

    let analyze = match mode {
        GenerationMode::Analyze => true,
        _ => false,
    };
    if analyze {
        return Ok(());
    }
    if settings.len() == 0 {
        return Err(ValidationError::NoSettings);
    }
    if streams.len() == 0 {
        return Err(ValidationError::NoStreams);
    }

    let mpps = match mode {
        GenerationMode::Mpps => true,
        _ => false,
    };
    let max_gbps = if is_tofino2 {
        TG_MAX_RATE_TF2_GBPS
    } else {
        TG_MAX_RATE_GBPS
    };
    let ceiling: u128 = max_gbps as u128 * 1_000_000;
    let mut sum: u128 = 0;
    let mut k: usize = 0;
    while k < streams.len()
        invariant
            k <= ss.len(),
            ss == streams@,
            overheads@.len() == ss.len(),
            mpps == (*mode == GenerationMode::Mpps),
            ceiling == rate_ceiling(is_tofino2),
            sum == aggregate_rate(ss, overheads@, *mode, k as int),
            sum <= ceiling,
            ts == settings@,
            ts.len() > 0,
            ss.len() > 0,
            *mode != GenerationMode::Analyze,
            first_stream_fault(ss, ts, is_tofino2, ss.len() as int) is None,
            total_frame_size(ss, ss.len() as int) <= MAX_BUFFER_SIZE,
        decreases ss.len() - k,
    {
        let s = &streams[k];
        let o = overheads[k];
        let rate = s.traffic_rate as u128;
        let term: u128 = if mpps {
            let bits = (s.frame_size as u128 + o as u128 + FRAME_GAP_BYTES as u128) * 8;
            assert(bits * rate <= 0x20_0000_0000 * 0x1_0000_0000_0000_0000) by (nonlinear_arith)
                requires
                    bits < 0x20_0000_0000,
                    rate < 0x1_0000_0000_0000_0000,
            ;
            bits * rate
        } else {
            rate * 1000
        };
        assert(term == stream_rate(*s, o, *mode));
        sum = sum + term;
        if sum > ceiling {
            proof {
                lemma_aggregate_rate_monotone(ss, overheads@, *mode, k + 1, ss.len() as int);
            }
            return Err(ValidationError::RateExceeded);
        }
        k += 1;
    }
    Ok(())
}

} // verus!
