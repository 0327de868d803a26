//! The data of a traffic-generation request.
use vstd::prelude::*;

verus! {

/// Encapsulation headers placed in front of a stream's IP packet.
#[derive(Clone, Copy, Debug, PartialEq, Eq, Structural)]
pub enum Encapsulation {
    /// No header between Ethernet and IP.
    Plain,
    Vlan,
    QinQ,
    Mpls,
    SRv6,
}

/// How `Stream::traffic_rate` is read, and whether an empty request is allowed.
#[derive(Clone, Copy, Debug, PartialEq, Eq, Structural)]
pub enum GenerationMode {
    /// The rate is a bit rate.
    Rate,
    /// The rate is a packet rate.
    Mpps,
    /// Traffic is only analysed: emptiness and rate limits do not apply.
    Analyze,
}

/// A packet template: one traffic pattern to generate.
#[derive(Clone, Copy, Debug, PartialEq, Eq, Structural)]
pub struct Stream {
    pub stream_id: u32,
    pub encapsulation: Encapsulation,
    /// Number of MPLS label stack entries; expected for `Encapsulation::Mpls`.
    pub number_of_lse: Option<u8>,
    /// Number of SRv6 segment identifiers; expected for `Encapsulation::SRv6`.
    pub number_of_srv6_sids: Option<u8>,
    /// Whether an SRv6 stream tunnels an inner IP header; absent means yes.
    pub srv6_ip_tunneling: Option<bool>,
    /// IP version of the packet: 4, 6, or absent.
    pub ip_version: Option<u8>,
    pub vxlan: bool,
    /// Frame size in bytes.
    pub frame_size: u32,
    /// Target rate in thousandths of the mode's unit: Mbit/s in
    /// `GenerationMode::Rate` (thousandths of Gbit/s), thousandths of a
    /// million packets per second in `GenerationMode::Mpps`.
    pub traffic_rate: u64,
}

/// Tag values of a VLAN or QinQ encapsulation.
#[derive(Clone, Copy, Debug, PartialEq, Eq, Structural)]
pub struct VlanSettings {
    pub vlan_id: u16,
    pub pcp: u8,
    pub dei: u8,
    pub inner_vlan_id: u16,
    pub inner_pcp: u8,
    pub inner_dei: u8,
}

/// One MPLS label stack entry.
#[derive(Clone, Copy, Debug, PartialEq, Eq, Structural)]
pub struct MplsHeader {
    pub label: u32,
    pub tc: u8,
    pub ttl: u8,
}

/// IPv4 header values.
#[derive(Clone, Copy, Debug, PartialEq, Eq, Structural)]
pub struct Ipv4Settings {
    pub ip_src: u32,
    pub ip_dst: u32,
    pub ip_tos: u8,
    pub ip_src_mask: u32,
    pub ip_dst_mask: u32,
}

/// IPv6 header values.
#[derive(Clone, Copy, Debug, PartialEq, Eq, Structural)]
pub struct Ipv6Settings {
    pub ipv6_src: u128,
    pub ipv6_dst: u128,
    pub ipv6_traffic_class: u8,
    pub ipv6_src_mask: u128,
    pub ipv6_dst_mask: u128,
    pub ipv6_flow_label: u32,
}

/// Outer headers of a VxLAN tunnel.
#[derive(Clone, Copy, Debug, PartialEq, Eq, Structural)]
pub struct VxlanSettings {
    pub eth_src: u64,
    pub eth_dst: u64,
    pub ip_src: u32,
    pub ip_dst: u32,
    pub ip_tos: u8,
    pub udp_source: u16,
    pub vni: u32,
}

/// The header values of one stream on one egress port.
#[derive(Clone, Debug)]
pub struct StreamSetting {
    /// The stream these values belong to.
    pub stream_id: u32,
    pub port: u32,
    pub vlan: Option<VlanSettings>,
    pub mpls_stack: Option<Vec<MplsHeader>>,
    /// SRv6 segment identifiers, each an IPv6 address.
    pub sid_list: Option<Vec<u128>>,
    pub ip: Option<Ipv4Settings>,
    pub ipv6: Option<Ipv6Settings>,
    pub vxlan: Option<VxlanSettings>,
}

/// The first rule of a request that validation found broken.
#[derive(Clone, Copy, Debug, PartialEq, Eq, Structural)]
pub enum ValidationError {
    MissingLseCount { stream_id: u32 },
    TooManyLse { stream_id: u32 },
    ZeroLse { stream_id: u32 },
    Srv6Unsupported,
    MissingSidCount { stream_id: u32 },
    TooManySids { stream_id: u32 },
    ZeroSids { stream_id: u32 },
    MissingVlan { stream_id: u32, port: u32 },
    MissingMplsStack { stream_id: u32, port: u32 },
    MplsStackMismatch { stream_id: u32 },
    MissingSidList { stream_id: u32, port: u32 },
    SidListMismatch { stream_id: u32 },
    UnsupportedIpVersion { stream_id: u32, port: u32 },
    MissingIpv4 { stream_id: u32, port: u32 },
    MissingIpv6 { stream_id: u32, port: u32 },
    MissingVxlan { stream_id: u32 },
    VxlanWithIpv6 { stream_id: u32 },
    VxlanWithSrv6 { stream_id: u32 },
    BufferExceeded,
    NoSettings,
    NoStreams,
    RateExceeded,
}

} // verus!
