//! Human-readable messages for validation errors.
use crate::limits::{MAX_BUFFER_SIZE, MAX_NUM_MPLS_LABEL, MAX_NUM_SRV6_SIDS};
use crate::types::ValidationError;
use vstd::prelude::*;
use vstd::string::StringExecFns;

verus! {

/// The character of decimal digit `d`.
pub open spec fn digit_char(d: nat) -> char {
    seq!['0', '1', '2', '3', '4', '5', '6', '7', '8', '9'][d as int]
}

/// `n` written in decimal, most significant digit first, without leading zeros.
pub open spec fn decimal(n: nat) -> Seq<char>
    decreases n,
{
    if n < 10 {
        seq![digit_char(n)]
    } else {
        decimal(n / 10).push(digit_char(n % 10))
    }
}

fn digit_str(d: u32) -> (r: &'static str)
    requires
        d < 10,
    ensures
        r@ == seq![digit_char(d as nat)],
{
    proof {
        reveal_strlit("0");
        reveal_strlit("1");
        reveal_strlit("2");
        reveal_strlit("3");
        reveal_strlit("4");
        reveal_strlit("5");
        reveal_strlit("6");
        reveal_strlit("7");
        reveal_strlit("8");
        reveal_strlit("9");
    }
    let r = match d {
        0 => "0",
        1 => "1",
        2 => "2",
        3 => "3",
        4 => "4",
        5 => "5",
        6 => "6",
        7 => "7",
        8 => "8",
        _ => "9",
    };
    assert(r@ =~= seq![digit_char(d as nat)]);
    r
}

/// Appends `n` in decimal to `s`.
fn push_decimal(s: &mut String, n: u32)
    ensures
        final(s)@ == old(s)@ + decimal(n as nat),
    decreases n,
{
    if n >= 10 {
        push_decimal(s, n / 10);
    }
    let ghost mid = s@;
    s.append(digit_str(n % 10));
    assert(s@ =~= old(s)@ + decimal(n as nat)) by {
        if n >= 10 {
            assert(decimal(n as nat) == decimal((n / 10) as nat).push(digit_char((n % 10) as nat)));
        }
    }
}

/// `before`, then `n` in decimal, then `after`.
fn framed_number(before: &str, n: u32, after: &str) -> (r: String)
    ensures
        r@ == before@ + decimal(n as nat) + after@,
{
    let mut s = String::from_str(before);
    push_decimal(&mut s, n);
    s.append(after);
    s
}

/// A message that names a stream and a port.
fn stream_port_message(before: &str, id: u32, middle: &str, port: u32, after: &str) -> (r: String)
    ensures
        r@ == before@ + decimal(id as nat) + middle@ + decimal(port as nat) + after@,
{
    let mut s = framed_number(before, id, middle);
    push_decimal(&mut s, port);
    s.append(after);
    s
}

/// The text that describes error `e`.
pub open spec fn message_text(e: ValidationError) -> Seq<char> {
    match e {
        ValidationError::MissingLseCount { stream_id } => "number_of_lse missing for stream #"@
            + decimal(stream_id as nat) + ""@,
        ValidationError::TooManyLse { stream_id } => "Configured number of LSEs in stream with ID #"@
            + decimal(stream_id as nat) + " exceeded maximum of "@ + decimal(
            MAX_NUM_MPLS_LABEL as nat,
        ) + "."@,
        ValidationError::ZeroLse { stream_id } => "MPLS encapsulation selected for stream with ID #"@
            + decimal(stream_id as nat) + " but #LSE is zero."@,
        ValidationError::Srv6Unsupported => "SRv6 is only supported on Tofino2."@,
        ValidationError::MissingSidCount { stream_id } => "number_of_srv6_sids missing for stream #"@
            + decimal(stream_id as nat) + ""@,
        ValidationError::TooManySids { stream_id } => "Configured number of SIDs in stream with ID #"@
            + decimal(stream_id as nat) + " exceeded maximum of "@ + decimal(
            MAX_NUM_SRV6_SIDS as nat,
        ) + "."@,
        ValidationError::ZeroSids { stream_id } => "SRv6 encapsulation selected for stream with ID #"@
            + decimal(stream_id as nat) + " but #SIDs is zero."@,
        ValidationError::MissingVlan { stream_id, port } =>
            "VLAN encapsulation selected for stream with ID #"@ + decimal(stream_id as nat)
                + ", but no VLAN settings provided for port "@ + decimal(port as nat) + "."@,
        ValidationError::MissingMplsStack { stream_id, port } =>
            "No MPLS stack provided for stream with ID #"@ + decimal(stream_id as nat)
                + " on port "@ + decimal(port as nat) + "."@,
        ValidationError::MplsStackMismatch { stream_id } => "Number of LSEs in stream with ID #"@
            + decimal(stream_id as nat) + " does not match length of the MPLS stack."@,
        ValidationError::MissingSidList { stream_id, port } =>
            "No SID list provided for stream with ID #"@ + decimal(stream_id as nat)
                + " on port "@ + decimal(port as nat) + "."@,
        ValidationError::SidListMismatch { stream_id } => "Number of SIDs in stream with ID #"@
            + decimal(stream_id as nat) + " does not match length of the SID list."@,
        ValidationError::UnsupportedIpVersion { stream_id, port } =>
            "Unsupported IP version for stream with ID #"@ + decimal(stream_id as nat)
                + " on port "@ + decimal(port as nat) + "."@,
        ValidationError::MissingIpv4 { stream_id, port } =>
            "Missing IPv4 settings for stream with ID #"@ + decimal(stream_id as nat)
                + " on port "@ + decimal(port as nat) + "."@,
        ValidationError::MissingIpv6 { stream_id, port } =>
            "Missing IPv6 settings for stream with ID #"@ + decimal(stream_id as nat)
                + " on port "@ + decimal(port as nat) + "."@,
        ValidationError::MissingVxlan { stream_id } => "Stream with ID #"@ + decimal(
            stream_id as nat,
        ) + " is a VxLAN stream but no VxLAN settings provided."@,
        ValidationError::VxlanWithIpv6 { stream_id } =>
            "VxLAN with IPv6 is not supported! (Stream with ID #"@ + decimal(stream_id as nat)
                + ")"@,
        ValidationError::VxlanWithSrv6 { stream_id } =>
            "Combination of VxLAN and SRv6 is not supported (Stream with ID #"@ + decimal(
            stream_id as nat,
        ) + ")"@,
        ValidationError::BufferExceeded =>
            "Sum of packet size too large. Maximal sum of packets size: "@ + decimal(
            MAX_BUFFER_SIZE as nat,
        ) + "B"@,
        ValidationError::NoSettings => "No active streams provided."@,
        ValidationError::NoStreams => "No stream provided."@,
        ValidationError::RateExceeded => "Traffic rate in sum larger than maximal supported rate."@,
    }
}

impl ValidationError {
    /// The text that describes this error, naming the stream and, where one
    /// is at fault, the port.
    pub fn message(&self) -> (r: String)
        ensures
            r@ == message_text(*self),
    {
        match *self {
            ValidationError::MissingLseCount { stream_id } => framed_number(
                "number_of_lse missing for stream #",
                stream_id,
                "",
            ),
            ValidationError::TooManyLse { stream_id } => {
                let mut s = framed_number(
                    "Configured number of LSEs in stream with ID #",
                    stream_id,
                    " exceeded maximum of ",
                );
                push_decimal(&mut s, MAX_NUM_MPLS_LABEL as u32);
                s.append(".");
                s
            },
            ValidationError::ZeroLse { stream_id } => framed_number(
                "MPLS encapsulation selected for stream with ID #",
                stream_id,
                " but #LSE is zero.",
            ),
            ValidationError::Srv6Unsupported => String::from_str(
                "SRv6 is only supported on Tofino2.",
            ),
            ValidationError::MissingSidCount { stream_id } => framed_number(
                "number_of_srv6_sids missing for stream #",
                stream_id,
                "",
            ),
            ValidationError::TooManySids { stream_id } => {
                let mut s = framed_number(
                    "Configured number of SIDs in stream with ID #",
                    stream_id,
                    " exceeded maximum of ",
                );
                push_decimal(&mut s, MAX_NUM_SRV6_SIDS as u32);
                s.append(".");
                s
            },
            ValidationError::ZeroSids { stream_id } => framed_number(
                "SRv6 encapsulation selected for stream with ID #",
                stream_id,
                " but #SIDs is zero.",
            ),
            ValidationError::MissingVlan { stream_id, port } => stream_port_message(
                "VLAN encapsulation selected for stream with ID #",
                stream_id,
                ", but no VLAN settings provided for port ",
                port,
                ".",
            ),
            ValidationError::MissingMplsStack { stream_id, port } => stream_port_message(
                "No MPLS stack provided for stream with ID #",
                stream_id,
                " on port ",
                port,
                ".",
            ),
            ValidationError::MplsStackMismatch { stream_id } => framed_number(
                "Number of LSEs in stream with ID #",
                stream_id,
                " does not match length of the MPLS stack.",
            ),
            ValidationError::MissingSidList { stream_id, port } => stream_port_message(
                "No SID list provided for stream with ID #",
                stream_id,
                " on port ",
                port,
                ".",
            ),
            ValidationError::SidListMismatch { stream_id } => framed_number(
                "Number of SIDs in stream with ID #",
                stream_id,
                " does not match length of the SID list.",
            ),
            ValidationError::UnsupportedIpVersion { stream_id, port } => stream_port_message(
                "Unsupported IP version for stream with ID #",
                stream_id,
                " on port ",
                port,
                ".",
            ),
            ValidationError::MissingIpv4 { stream_id, port } => stream_port_message(
                "Missing IPv4 settings for stream with ID #",
                stream_id,
                " on port ",
                port,
                ".",
            ),
            ValidationError::MissingIpv6 { stream_id, port } => stream_port_message(
                "Missing IPv6 settings for stream with ID #",
                stream_id,
                " on port ",
                port,
                ".",
            ),
            ValidationError::MissingVxlan { stream_id } => framed_number(
                "Stream with ID #",
                stream_id,
                " is a VxLAN stream but no VxLAN settings provided.",
            ),
            ValidationError::VxlanWithIpv6 { stream_id } => framed_number(
                "VxLAN with IPv6 is not supported! (Stream with ID #",
                stream_id,
                ")",
            ),
            ValidationError::VxlanWithSrv6 { stream_id } => framed_number(
                "Combination of VxLAN and SRv6 is not supported (Stream with ID #",
                stream_id,
                ")",
            ),
            ValidationError::BufferExceeded => framed_number(
                "Sum of packet size too large. Maximal sum of packets size: ",
                MAX_BUFFER_SIZE,
                "B",
            ),
            ValidationError::NoSettings => String::from_str("No active streams provided."),
            ValidationError::NoStreams => String::from_str("No stream provided."),
            ValidationError::RateExceeded => String::from_str(
                "Traffic rate in sum larger than maximal supported rate.",
            ),
        }
    }
}

} // verus!
