use p4tg_validate::{
    validate_request, Encapsulation, GenerationMode, Ipv4Settings, Ipv6Settings, MplsHeader,
    Stream, StreamSetting, ValidationError, VlanSettings, VxlanSettings,
};

fn stream(id: u32, encapsulation: Encapsulation) -> Stream {
    Stream {
        stream_id: id,
        encapsulation,
        number_of_lse: None,
        number_of_srv6_sids: None,
        srv6_ip_tunneling: None,
        ip_version: Some(4),
        vxlan: false,
        frame_size: 64,
        traffic_rate: 1000,
    }
}

fn ipv4() -> Ipv4Settings {
    Ipv4Settings { ip_src: 0x0a00_0001, ip_dst: 0x0a00_0002, ip_tos: 0, ip_src_mask: 0, ip_dst_mask: 0 }
}

fn ipv6() -> Ipv6Settings {
    Ipv6Settings {
        ipv6_src: 1,
        ipv6_dst: 2,
        ipv6_traffic_class: 0,
        ipv6_src_mask: 0,
        ipv6_dst_mask: 0,
        ipv6_flow_label: 0,
    }
}

fn vlan() -> VlanSettings {
    VlanSettings { vlan_id: 10, pcp: 0, dei: 0, inner_vlan_id: 20, inner_pcp: 0, inner_dei: 0 }
}

fn vxlan() -> VxlanSettings {
    VxlanSettings {
        eth_src: 0x0200_0000_0001,
        eth_dst: 0x0200_0000_0002,
        ip_src: 0x0a00_0001,
        ip_dst: 0x0a00_0002,
        ip_tos: 0,
        udp_source: 49152,
        vni: 1,
    }
}

fn mpls_stack(n: usize) -> Vec<MplsHeader> {
    (0..n).map(|i| MplsHeader { label: 100 + i as u32, tc: 0, ttl: 64 }).collect()
}

fn setting(id: u32, port: u32) -> StreamSetting {
    StreamSetting {
        stream_id: id,
        port,
        vlan: None,
        mpls_stack: None,
        sid_list: None,
        ip: Some(ipv4()),
        ipv6: None,
        vxlan: None,
    }
}

fn mpls_stream(id: u32, lse: u8) -> Stream {
    let mut s = stream(id, Encapsulation::Mpls);
    s.number_of_lse = Some(lse);
    s
}

fn srv6_stream(id: u32, sids: u8) -> Stream {
    let mut s = stream(id, Encapsulation::SRv6);
    s.number_of_srv6_sids = Some(sids);
    s
}

fn run(streams: &[Stream], settings: &[StreamSetting], mode: GenerationMode, tf2: bool) -> Result<(), ValidationError> {
    let overheads = vec![0u32; streams.len()];
    validate_request(streams, settings, &mode, tf2, &overheads)
}

fn message_of(r: Result<(), ValidationError>) -> String {
    r.expect_err("expected a rejection").message()
}

#[test]
fn scenario_mpls_stream_with_matching_stack_is_accepted() {
    let streams = [mpls_stream(1, 3)];
    let mut t = setting(1, 5);
    t.mpls_stack = Some(mpls_stack(3));
    assert_eq!(run(&streams, &[t], GenerationMode::Rate, false), Ok(()));
}

#[test]
fn scenario_srv6_on_standard_hardware_is_rejected() {
    let streams = [srv6_stream(1, 2)];
    let r = run(&streams, &[setting(1, 5)], GenerationMode::Rate, false);
    assert_eq!(r, Err(ValidationError::Srv6Unsupported));
    assert_eq!(message_of(r), "SRv6 is only supported on Tofino2.");
}

#[test]
fn scenario_empty_request_in_analyze_mode_is_accepted() {
    assert_eq!(run(&[], &[], GenerationMode::Analyze, false), Ok(()));
}

#[test]
fn scenario_frame_sizes_over_buffer_are_rejected() {
    let mut a = stream(1, Encapsulation::Plain);
    let mut b = stream(2, Encapsulation::Plain);
    a.frame_size = 4000;
    b.frame_size = 3001;
    let r = run(&[a, b], &[setting(1, 1), setting(2, 2)], GenerationMode::Rate, false);
    assert_eq!(r, Err(ValidationError::BufferExceeded));
    assert_eq!(message_of(r), "Sum of packet size too large. Maximal sum of packets size: 7000B");
}

#[test]
fn frame_sizes_exactly_at_buffer_are_accepted() {
    let mut a = stream(1, Encapsulation::Plain);
    let mut b = stream(2, Encapsulation::Plain);
    a.frame_size = 4000;
    b.frame_size = 3000;
    assert_eq!(run(&[a, b], &[setting(1, 1), setting(2, 2)], GenerationMode::Rate, false), Ok(()));
}

#[test]
fn scenario_mpps_rate_over_ceiling_is_rejected() {
    // (1500 + 0 + 20) * 8 * 10 Mpps / 1000 = 121.6 Gbit/s
    let mut s = stream(1, Encapsulation::Plain);
    s.frame_size = 1500;
    s.traffic_rate = 10_000;
    let r = run(&[s], &[setting(1, 1)], GenerationMode::Mpps, false);
    assert_eq!(r, Err(ValidationError::RateExceeded));
    assert_eq!(message_of(r), "Traffic rate in sum larger than maximal supported rate.");
    assert_eq!(run(&[s], &[setting(1, 1)], GenerationMode::Mpps, true), Ok(()));
}

#[test]
fn mpps_rate_counts_encapsulation_overhead() {
    // (1000 + 0 + 20) * 8 * 12.25 Mpps / 1000 = 99.96 Gbit/s;
    // with 4 more bytes: (1024 + 20) * 8 * 12.25 / 1000 = 102.31 Gbit/s.
    let mut s = stream(1, Encapsulation::Vlan);
    s.frame_size = 1000;
    s.traffic_rate = 12_250;
    let mut t = setting(1, 1);
    t.vlan = Some(vlan());
    let streams = [s];
    let settings = [t];
    assert_eq!(validate_request(&streams, &settings, &GenerationMode::Mpps, false, &[0]), Ok(()));
    assert_eq!(
        validate_request(&streams, &settings, &GenerationMode::Mpps, false, &[4]),
        Err(ValidationError::RateExceeded)
    );
}

#[test]
fn rate_mode_ceiling_is_inclusive() {
    let mut a = stream(1, Encapsulation::Plain);
    let mut b = stream(2, Encapsulation::Plain);
    a.traffic_rate = 60_000;
    b.traffic_rate = 40_000;
    let settings = [setting(1, 1), setting(2, 2)];
    assert_eq!(run(&[a, b], &settings, GenerationMode::Rate, false), Ok(()));
    b.traffic_rate = 40_001;
    assert_eq!(run(&[a, b], &settings, GenerationMode::Rate, false), Err(ValidationError::RateExceeded));
    assert_eq!(run(&[a, b], &settings, GenerationMode::Rate, true), Ok(()));
    a.traffic_rate = 360_000;
    assert_eq!(run(&[a, b], &settings, GenerationMode::Rate, true), Err(ValidationError::RateExceeded));
}

#[test]
fn analyze_mode_has_no_rate_ceiling() {
    let mut s = stream(1, Encapsulation::Plain);
    s.traffic_rate = 1_000_000;
    assert_eq!(run(&[s], &[setting(1, 1)], GenerationMode::Analyze, false), Ok(()));
}

#[test]
fn mpls_with_zero_labels_is_rejected() {
    let streams = [mpls_stream(4, 0)];
    let mut t = setting(4, 1);
    t.mpls_stack = Some(mpls_stack(0));
    let r = run(&streams, &[t], GenerationMode::Rate, false);
    assert_eq!(r, Err(ValidationError::ZeroLse { stream_id: 4 }));
    assert_eq!(message_of(r), "MPLS encapsulation selected for stream with ID #4 but #LSE is zero.");
    assert_eq!(run(&streams, &[], GenerationMode::Analyze, true), Err(ValidationError::ZeroLse { stream_id: 4 }));
}

#[test]
fn mpls_stack_length_must_match_label_count() {
    let streams = [mpls_stream(2, 3)];
    for len in [0usize, 1, 2, 4, 15] {
        let mut t = setting(2, 7);
        t.mpls_stack = Some(mpls_stack(len));
        let r = run(&streams, &[t], GenerationMode::Rate, false);
        assert_eq!(r, Err(ValidationError::MplsStackMismatch { stream_id: 2 }));
        assert_eq!(message_of(r), "Number of LSEs in stream with ID #2 does not match length of the MPLS stack.");
    }
    let mut t = setting(2, 7);
    t.mpls_stack = Some(mpls_stack(3));
    assert_eq!(run(&streams, &[t], GenerationMode::Rate, false), Ok(()));
}

#[test]
fn mpls_label_count_limits() {
    let mut s = stream(3, Encapsulation::Mpls);
    let r = run(&[s], &[], GenerationMode::Analyze, false);
    assert_eq!(r, Err(ValidationError::MissingLseCount { stream_id: 3 }));
    assert_eq!(message_of(r), "number_of_lse missing for stream #3");
    s.number_of_lse = Some(16);
    let r = run(&[s], &[], GenerationMode::Analyze, false);
    assert_eq!(r, Err(ValidationError::TooManyLse { stream_id: 3 }));
    assert_eq!(message_of(r), "Configured number of LSEs in stream with ID #3 exceeded maximum of 15.");
    s.number_of_lse = Some(15);
    let mut t = setting(3, 1);
    t.mpls_stack = Some(mpls_stack(15));
    assert_eq!(run(&[s], &[t], GenerationMode::Rate, false), Ok(()));
}

#[test]
fn mpls_stack_missing_is_rejected() {
    let r = run(&[mpls_stream(9, 2)], &[setting(9, 12)], GenerationMode::Rate, false);
    assert_eq!(r, Err(ValidationError::MissingMplsStack { stream_id: 9, port: 12 }));
    assert_eq!(message_of(r), "No MPLS stack provided for stream with ID #9 on port 12.");
}

#[test]
fn srv6_rejected_on_standard_hardware_whatever_the_fields() {
    let mut s = stream(1, Encapsulation::SRv6);
    assert_eq!(run(&[s], &[], GenerationMode::Analyze, false), Err(ValidationError::Srv6Unsupported));
    s.number_of_srv6_sids = Some(200);
    s.vxlan = true;
    assert_eq!(run(&[s], &[setting(1, 1)], GenerationMode::Mpps, false), Err(ValidationError::Srv6Unsupported));
}

#[test]
fn srv6_sid_count_limits() {
    let mut s = stream(6, Encapsulation::SRv6);
    let r = run(&[s], &[], GenerationMode::Analyze, true);
    assert_eq!(r, Err(ValidationError::MissingSidCount { stream_id: 6 }));
    assert_eq!(message_of(r), "number_of_srv6_sids missing for stream #6");
    s.number_of_srv6_sids = Some(4);
    let r = run(&[s], &[], GenerationMode::Analyze, true);
    assert_eq!(r, Err(ValidationError::TooManySids { stream_id: 6 }));
    assert_eq!(message_of(r), "Configured number of SIDs in stream with ID #6 exceeded maximum of 3.");
    s.number_of_srv6_sids = Some(0);
    let r = run(&[s], &[], GenerationMode::Analyze, true);
    assert_eq!(r, Err(ValidationError::ZeroSids { stream_id: 6 }));
    assert_eq!(message_of(r), "SRv6 encapsulation selected for stream with ID #6 but #SIDs is zero.");
}

#[test]
fn srv6_sid_list_checks() {
    let streams = [srv6_stream(8, 2)];
    let r = run(&streams, &[setting(8, 3)], GenerationMode::Rate, true);
    assert_eq!(r, Err(ValidationError::MissingSidList { stream_id: 8, port: 3 }));
    assert_eq!(message_of(r), "No SID list provided for stream with ID #8 on port 3.");
    let mut t = setting(8, 3);
    t.sid_list = Some(vec![1u128, 2, 3]);
    let r = run(&streams, &[t.clone()], GenerationMode::Rate, true);
    assert_eq!(r, Err(ValidationError::SidListMismatch { stream_id: 8 }));
    assert_eq!(message_of(r), "Number of SIDs in stream with ID #8 does not match length of the SID list.");
    t.sid_list = Some(vec![1u128, 2]);
    assert_eq!(run(&streams, &[t], GenerationMode::Rate, true), Ok(()));
}

#[test]
fn srv6_without_ip_tunneling_skips_ip_checks() {
    let mut s = srv6_stream(8, 1);
    s.ip_version = Some(6);
    let mut t = setting(8, 3);
    t.sid_list = Some(vec![7u128]);
    let r = run(&[s], &[t.clone()], GenerationMode::Rate, true);
    assert_eq!(r, Err(ValidationError::MissingIpv6 { stream_id: 8, port: 3 }));
    s.srv6_ip_tunneling = Some(true);
    assert_eq!(run(&[s], &[t.clone()], GenerationMode::Rate, true), r);
    s.srv6_ip_tunneling = Some(false);
    assert_eq!(run(&[s], &[t], GenerationMode::Rate, true), Ok(()));
}

#[test]
fn vlan_and_qinq_need_vlan_settings() {
    for encapsulation in [Encapsulation::Vlan, Encapsulation::QinQ] {
        let streams = [stream(11, encapsulation)];
        let r = run(&streams, &[setting(11, 140)], GenerationMode::Rate, false);
        assert_eq!(r, Err(ValidationError::MissingVlan { stream_id: 11, port: 140 }));
        assert_eq!(
            message_of(r),
            "VLAN encapsulation selected for stream with ID #11, but no VLAN settings provided for port 140."
        );
        let mut t = setting(11, 140);
        t.vlan = Some(vlan());
        assert_eq!(run(&streams, &[t], GenerationMode::Rate, false), Ok(()));
    }
}

#[test]
fn ip_version_checks() {
    let mut s = stream(5, Encapsulation::Plain);
    s.ip_version = Some(5);
    let r = run(&[s], &[setting(5, 0)], GenerationMode::Rate, false);
    assert_eq!(r, Err(ValidationError::UnsupportedIpVersion { stream_id: 5, port: 0 }));
    assert_eq!(message_of(r), "Unsupported IP version for stream with ID #5 on port 0.");

    s.ip_version = Some(4);
    let mut t = setting(5, 0);
    t.ip = None;
    let r = run(&[s], &[t.clone()], GenerationMode::Rate, false);
    assert_eq!(r, Err(ValidationError::MissingIpv4 { stream_id: 5, port: 0 }));
    assert_eq!(message_of(r), "Missing IPv4 settings for stream with ID #5 on port 0.");

    s.ip_version = Some(6);
    let r = run(&[s], &[t.clone()], GenerationMode::Rate, false);
    assert_eq!(r, Err(ValidationError::MissingIpv6 { stream_id: 5, port: 0 }));
    assert_eq!(message_of(r), "Missing IPv6 settings for stream with ID #5 on port 0.");
    t.ipv6 = Some(ipv6());
    assert_eq!(run(&[s], &[t.clone()], GenerationMode::Rate, false), Ok(()));

    s.ip_version = None;
    t.ipv6 = None;
    assert_eq!(run(&[s], &[t], GenerationMode::Rate, false), Ok(()));
}

#[test]
fn vxlan_needs_vxlan_settings_on_every_setting() {
    let mut s = stream(1, Encapsulation::Plain);
    s.vxlan = true;
    let other = stream(2, Encapsulation::Plain);
    let mut t1 = setting(1, 1);
    t1.vxlan = Some(vxlan());
    let t2 = setting(2, 2);
    let r = run(&[s, other], &[t1.clone(), t2.clone()], GenerationMode::Rate, false);
    assert_eq!(r, Err(ValidationError::MissingVxlan { stream_id: 1 }));
    assert_eq!(message_of(r), "Stream with ID #1 is a VxLAN stream but no VxLAN settings provided.");
    let mut t2 = t2;
    t2.vxlan = Some(vxlan());
    assert_eq!(run(&[s, other], &[t1, t2], GenerationMode::Rate, false), Ok(()));
}

#[test]
fn vxlan_with_ipv6_is_rejected() {
    let mut s = stream(3, Encapsulation::Plain);
    s.vxlan = true;
    s.ip_version = Some(6);
    let mut t = setting(3, 1);
    t.vxlan = Some(vxlan());
    t.ipv6 = Some(ipv6());
    let r = run(&[s], &[t], GenerationMode::Rate, true);
    assert_eq!(r, Err(ValidationError::VxlanWithIpv6 { stream_id: 3 }));
    assert_eq!(message_of(r), "VxLAN with IPv6 is not supported! (Stream with ID #3)");
}

#[test]
fn vxlan_with_srv6_is_rejected() {
    let mut s = srv6_stream(12, 1);
    s.vxlan = true;
    let mut t = setting(12, 1);
    t.vxlan = Some(vxlan());
    t.sid_list = Some(vec![9u128]);
    let r = run(&[s], &[t], GenerationMode::Rate, true);
    assert_eq!(r, Err(ValidationError::VxlanWithSrv6 { stream_id: 12 }));
    assert_eq!(message_of(r), "Combination of VxLAN and SRv6 is not supported (Stream with ID #12)");
}

#[test]
fn empty_request_outside_analyze_mode_is_rejected() {
    for mode in [GenerationMode::Rate, GenerationMode::Mpps] {
        let r = run(&[stream(1, Encapsulation::Plain)], &[], mode, false);
        assert_eq!(r, Err(ValidationError::NoSettings));
        assert_eq!(message_of(r), "No active streams provided.");
        let r = run(&[], &[setting(1, 1)], mode, false);
        assert_eq!(r, Err(ValidationError::NoStreams));
        assert_eq!(message_of(r), "No stream provided.");
        assert_eq!(run(&[], &[], mode, false), Err(ValidationError::NoSettings));
    }
}

#[test]
fn settings_of_unknown_streams_are_ignored() {
    let streams = [stream(1, Encapsulation::Plain)];
    let mut stray = setting(99, 4);
    stray.ip = None;
    assert_eq!(run(&streams, &[setting(1, 1), stray], GenerationMode::Rate, false), Ok(()));
}

#[test]
fn first_broken_rule_is_reported() {
    let mut a = stream(1, Encapsulation::Plain);
    a.frame_size = 8000;
    let b = mpls_stream(2, 0);
    assert_eq!(run(&[a, b], &[], GenerationMode::Rate, false), Err(ValidationError::ZeroLse { stream_id: 2 }));
    assert_eq!(run(&[a], &[], GenerationMode::Rate, false), Err(ValidationError::BufferExceeded));
    let mut c = stream(3, Encapsulation::Vlan);
    c.ip_version = Some(4);
    let mut t = setting(3, 8);
    t.ip = None;
    assert_eq!(
        run(&[c], &[t], GenerationMode::Rate, false),
        Err(ValidationError::MissingVlan { stream_id: 3, port: 8 })
    );
}

#[test]
fn validation_twice_gives_the_same_verdict() {
    let streams = [mpls_stream(1, 2), srv6_stream(2, 1)];
    let mut t = setting(1, 1);
    t.mpls_stack = Some(mpls_stack(1));
    let settings = [t];
    for tf2 in [false, true] {
        let first = run(&streams, &settings, GenerationMode::Rate, tf2);
        let second = run(&streams, &settings, GenerationMode::Rate, tf2);
        assert_eq!(first, second);
        assert_eq!(first.map_err(|e| e.message()), second.map_err(|e| e.message()));
    }
}

#[test]
fn messages_write_numbers_in_decimal() {
    assert_eq!(ValidationError::MissingLseCount { stream_id: 0 }.message(), "number_of_lse missing for stream #0");
    assert_eq!(
        ValidationError::MissingMplsStack { stream_id: 4294967295, port: 1010 }.message(),
        "No MPLS stack provided for stream with ID #4294967295 on port 1010."
    );
}
