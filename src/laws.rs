//! General facts about the outcome of validation.
use crate::types::{Encapsulation, GenerationMode, Stream, StreamSetting, ValidationError};
use crate::validate::{
    encapsulation_fault, first_setting_fault, first_stream_fault, lemma_first_setting_fault_stable,
    lemma_first_stream_fault_stable, pair_fault, setting_fault, stream_fault, verdict, vxlan_fault,
};
use vstd::prelude::*;

verus! {

/// A fault of one stream makes the streams' checks fail as a whole.
proof fn lemma_stream_fault_rejects(
    ss: Seq<Stream>,
    ts: Seq<StreamSetting>,
    is_tofino2: bool,
    i: int,
)
    requires
        0 <= i < ss.len(),
        stream_fault(ss[i], ts, is_tofino2) is Some,
    ensures
        first_stream_fault(ss, ts, is_tofino2, ss.len() as int) is Some,
{
    if first_stream_fault(ss, ts, is_tofino2, i) is Some {
        lemma_first_stream_fault_stable(ss, ts, is_tofino2, i, ss.len() as int);
    } else {
        lemma_first_stream_fault_stable(ss, ts, is_tofino2, i + 1, ss.len() as int);
    }
}

/// A fault of stream `s` against one setting is a fault of the stream.
proof fn lemma_pair_fault_is_stream_fault(
    s: Stream,
    ts: Seq<StreamSetting>,
    is_tofino2: bool,
    j: int,
)
    requires
        0 <= j < ts.len(),
        pair_fault(s, ts[j]) is Some,
    ensures
        stream_fault(s, ts, is_tofino2) is Some,
{
    if first_setting_fault(s, ts, j) is Some {
        lemma_first_setting_fault_stable(s, ts, j, ts.len() as int);
    } else {
        lemma_first_setting_fault_stable(s, ts, j + 1, ts.len() as int);
    }
}

/// An MPLS stream whose label stack count is zero makes validation fail.
pub proof fn mpls_without_labels_is_rejected(
    ss: Seq<Stream>,
    ts: Seq<StreamSetting>,
    os: Seq<u32>,
    mode: GenerationMode,
    is_tofino2: bool,
    i: int,
)
    requires
        0 <= i < ss.len(),
        ss[i].encapsulation == Encapsulation::Mpls,
        ss[i].number_of_lse == Some(0u8),
    ensures
        verdict(ss, ts, os, mode, is_tofino2) is Err,
{
    lemma_stream_fault_rejects(ss, ts, is_tofino2, i);
}

/// A setting of an MPLS stream whose label stack is not as long as the
/// stream's label count says makes validation fail.
pub proof fn mismatched_mpls_stack_is_rejected(
    ss: Seq<Stream>,
    ts: Seq<StreamSetting>,
    os: Seq<u32>,
    mode: GenerationMode,
    is_tofino2: bool,
    i: int,
    j: int,
)
    requires
        0 <= i < ss.len(),
        0 <= j < ts.len(),
        ss[i].encapsulation == Encapsulation::Mpls,
        ts[j].stream_id == ss[i].stream_id,
        ts[j].mpls_stack is Some,
        ss[i].number_of_lse is None || ts[j].mpls_stack.unwrap()@.len()
            != ss[i].number_of_lse.unwrap() as nat,
    ensures
        verdict(ss, ts, os, mode, is_tofino2) is Err,
{
    if encapsulation_fault(ss[i], is_tofino2) is None {
        assert(setting_fault(ss[i], ts[j]) is Some);
        lemma_pair_fault_is_stream_fault(ss[i], ts, is_tofino2, j);
    }
    lemma_stream_fault_rejects(ss, ts, is_tofino2, i);
}

/// Whether `e` reports a missing or mismatched MPLS label stack.
pub open spec fn is_mpls_stack_error(e: ValidationError) -> bool {
    match e {
        ValidationError::MissingMplsStack { .. } => true,
        ValidationError::MplsStackMismatch { .. } => true,
        _ => false,
    }
}

/// Whether every setting of every MPLS stream holds a label stack exactly as
/// long as the stream's label count.
pub open spec fn mpls_stacks_match(ss: Seq<Stream>, ts: Seq<StreamSetting>) -> bool {
    forall|i: int, j: int|
        0 <= i < ss.len() && 0 <= j < ts.len() && ss[i].encapsulation == Encapsulation::Mpls
            && #[trigger] ts[j].stream_id == #[trigger] ss[i].stream_id ==> {
            &&& ts[j].mpls_stack is Some
            &&& ss[i].number_of_lse is Some
            &&& ts[j].mpls_stack.unwrap()@.len() == ss[i].number_of_lse.unwrap() as nat
        }
}

proof fn lemma_matching_stacks_setting_faults(
    s: Stream,
    ts: Seq<StreamSetting>,
    k: int,
)
    requires
        0 <= k <= ts.len(),
        forall|j: int|
            0 <= j < ts.len() && s.encapsulation == Encapsulation::Mpls && #[trigger] ts[j].stream_id
                == s.stream_id ==> {
                &&& ts[j].mpls_stack is Some
                &&& s.number_of_lse is Some
                &&& ts[j].mpls_stack.unwrap()@.len() == s.number_of_lse.unwrap() as nat
            },
    ensures
        first_setting_fault(s, ts, k) is Some ==> !is_mpls_stack_error(
            first_setting_fault(s, ts, k).unwrap(),
        ),
    decreases k,
{
    if k > 0 {
        lemma_matching_stacks_setting_faults(s, ts, k - 1);
        let t = ts[k - 1];
        if t.stream_id == s.stream_id && s.encapsulation == Encapsulation::Mpls {
            assert(t.mpls_stack is Some);
        }
    }
}

proof fn lemma_matching_stacks_stream_faults(
    ss: Seq<Stream>,
    ts: Seq<StreamSetting>,
    is_tofino2: bool,
    k: int,
)
    requires
        0 <= k <= ss.len(),
        mpls_stacks_match(ss, ts),
    ensures
        first_stream_fault(ss, ts, is_tofino2, k) is Some ==> !is_mpls_stack_error(
            first_stream_fault(ss, ts, is_tofino2, k).unwrap(),
        ),
    decreases k,
{
    if k > 0 {
        lemma_matching_stacks_stream_faults(ss, ts, is_tofino2, k - 1);
        let s = ss[k - 1];
        assert forall|j: int|
            0 <= j < ts.len() && s.encapsulation == Encapsulation::Mpls && #[trigger] ts[j].stream_id
                == s.stream_id implies {
            &&& ts[j].mpls_stack is Some
            &&& s.number_of_lse is Some
            &&& ts[j].mpls_stack.unwrap()@.len() == s.number_of_lse.unwrap() as nat
        } by {
            assert(ts[j].stream_id == ss[k - 1].stream_id);
        }
        lemma_matching_stacks_setting_faults(s, ts, ts.len() as int);
    }
}

/// Where every MPLS stream's settings hold label stacks of the declared
/// length, validation never fails for a missing or mismatched stack.
pub proof fn matching_mpls_stacks_pass(
    ss: Seq<Stream>,
    ts: Seq<StreamSetting>,
    os: Seq<u32>,
    mode: GenerationMode,
    is_tofino2: bool,
)
    requires
        mpls_stacks_match(ss, ts),
    ensures
        verdict(ss, ts, os, mode, is_tofino2) is Err ==> !is_mpls_stack_error(
            verdict(ss, ts, os, mode, is_tofino2)->Err_0,
        ),
{
    lemma_matching_stacks_stream_faults(ss, ts, is_tofino2, ss.len() as int);
}

/// On hardware other than Tofino2, a request with an SRv6 stream fails.
pub proof fn srv6_without_tofino2_is_rejected(
    ss: Seq<Stream>,
    ts: Seq<StreamSetting>,
    os: Seq<u32>,
    mode: GenerationMode,
    i: int,
)
    requires
        0 <= i < ss.len(),
        ss[i].encapsulation == Encapsulation::SRv6,
    ensures
        verdict(ss, ts, os, mode, false) is Err,
{
    lemma_stream_fault_rejects(ss, ts, false, i);
}

/// A VxLAN stream over IPv6 makes validation fail, unless the request has no
/// settings at all in `Analyze` mode, where no setting is checked.
pub proof fn vxlan_over_ipv6_is_rejected(
    ss: Seq<Stream>,
    ts: Seq<StreamSetting>,
    os: Seq<u32>,
    mode: GenerationMode,
    is_tofino2: bool,
    i: int,
)
    requires
        0 <= i < ss.len(),
        ss[i].vxlan,
        ss[i].ip_version == Some(6u8),
        ts.len() > 0 || mode != GenerationMode::Analyze,
    ensures
        verdict(ss, ts, os, mode, is_tofino2) is Err,
{
    if ts.len() > 0 {
        if encapsulation_fault(ss[i], is_tofino2) is None {
            assert(vxlan_fault(ss[i], ts[0]) is Some);
            lemma_pair_fault_is_stream_fault(ss[i], ts, is_tofino2, 0);
        }
        lemma_stream_fault_rejects(ss, ts, is_tofino2, i);
    }
}

/// A VxLAN stream with SRv6 encapsulation makes validation fail, unless the
/// request has no settings at all in `Analyze` mode on Tofino2, where no
/// setting is checked.
pub proof fn vxlan_over_srv6_is_rejected(
    ss: Seq<Stream>,
    ts: Seq<StreamSetting>,
    os: Seq<u32>,
    mode: GenerationMode,
    is_tofino2: bool,
    i: int,
)
    requires
        0 <= i < ss.len(),
        ss[i].vxlan,
        ss[i].encapsulation == Encapsulation::SRv6,
        ts.len() > 0 || mode != GenerationMode::Analyze || !is_tofino2,
    ensures
        verdict(ss, ts, os, mode, is_tofino2) is Err,
{
    if ts.len() > 0 || !is_tofino2 {
        if encapsulation_fault(ss[i], is_tofino2) is None {
            assert(vxlan_fault(ss[i], ts[0]) is Some);
            lemma_pair_fault_is_stream_fault(ss[i], ts, is_tofino2, 0);
        }
        lemma_stream_fault_rejects(ss, ts, is_tofino2, i);
    }
}

/// Validation is a function of its inputs: two validations of the same
/// request give the same outcome.
pub proof fn validation_is_deterministic(
    ss: Seq<Stream>,
    ts: Seq<StreamSetting>,
    os: Seq<u32>,
    mode: GenerationMode,
    is_tofino2: bool,
    r1: Result<(), ValidationError>,
    r2: Result<(), ValidationError>,
)
    requires
        r1 == verdict(ss, ts, os, mode, is_tofino2),
        r2 == verdict(ss, ts, os, mode, is_tofino2),
    ensures
        r1 == r2,
{
}

} // verus!
