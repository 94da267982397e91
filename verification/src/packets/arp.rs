//! The ARP layer: the standard twenty-eight-byte request/reply layout with
//! hardware and protocol addresses at fixed offsets. An all-zero hardware
//! address renders as `Broadcast`.

use vstd::prelude::*;
use vstd::string::*;
use crate::render::{spec_dec, spec_ipv4, spec_format_mac, dec_u64, ipv4_string, format_mac};
use crate::wire::{be16, read_be16, copy_range};

verus! {

/// A decoded ARP message.
pub struct ArpMessage {
    pub operation: u16,
    pub sender_hw: Vec<u8>,
    pub sender_proto: Vec<u8>,
    pub target_hw: Vec<u8>,
    pub target_proto: Vec<u8>,
}

/// Dotted-quad rendering of a four-byte protocol address.
pub open spec fn spec_ipv4_seq(s: Seq<u8>) -> Seq<char>
    recommends
        s.len() == 4,
{
    spec_ipv4(s[0], s[1], s[2], s[3])
}

/// The textual summary of an ARP message: a question for a request, an
/// answer for a reply, and the bare operation number otherwise.
pub open spec fn spec_arp_info(
    op: u16,
    sender_hw: Seq<u8>,
    sender_proto: Seq<u8>,
    target_proto: Seq<u8>,
) -> Seq<char>
    recommends
        sender_proto.len() == 4,
        target_proto.len() == 4,
{
    if op == 1 {
        "Who has "@ + spec_ipv4_seq(target_proto) + "? Tell "@ + spec_ipv4_seq(sender_proto)
    } else if op == 2 {
        spec_ipv4_seq(sender_proto) + " is at "@ + spec_format_mac(sender_hw)
    } else {
        "Unknown ARP operation: "@ + spec_dec(op as nat)
    }
}

/// Decoder of the ARP layer.
pub struct ArpProcessor;

impl ArpProcessor {
    /// Creates the decoder.
    pub fn new() -> (p: ArpProcessor) {
        ArpProcessor
    }

    /// Decodes an ARP message: succeeds exactly on twenty-eight or more
    /// bytes, and then yields the operation and the four addresses.
    pub fn process(&self, data: &[u8]) -> (r: Option<ArpMessage>)
        ensures
            r is Some <==> data@.len() >= 28,
            r matches Some(m) ==> {
                &&& m.operation == be16(data@, 6)
                &&& m.sender_hw@ == data@.subrange(8, 14)
                &&& m.sender_proto@ == data@.subrange(14, 18)
                &&& m.target_hw@ == data@.subrange(18, 24)
                &&& m.target_proto@ == data@.subrange(24, 28)
            },
    {
        if data.len() < 28 {
            return None;
        }
        let operation = read_be16(data, 6);
        let sender_hw = copy_range(data, 8, 14);
        let sender_proto = copy_range(data, 14, 18);
        let target_hw = copy_range(data, 18, 24);
        let target_proto = copy_range(data, 24, 28);
        Some(ArpMessage { operation, sender_hw, sender_proto, target_hw, target_proto })
    }

    /// Summarizes an ARP message as text.
    pub fn format_arp_info(message: &ArpMessage) -> (s: String)
        requires
            message.sender_proto@.len() == 4,
            message.target_proto@.len() == 4,
        ensures
            s@ == spec_arp_info(
                message.operation,
                message.sender_hw@,
                message.sender_proto@,
                message.target_proto@,
            ),
    {
        if message.operation == 1 {
            let mut s = String::from_str("Who has ");
            let t = ipv4_addr_string(&message.target_proto);
            s.append(t.as_str());
            s.append("? Tell ");
            let snd = ipv4_addr_string(&message.sender_proto);
            s.append(snd.as_str());
            s
        } else if message.operation == 2 {
            let mut s = ipv4_addr_string(&message.sender_proto);
            s.append(" is at ");
            let m = format_mac(message.sender_hw.as_slice());
            s.append(m.as_str());
            s
        } else {
            let mut s = String::from_str("Unknown ARP operation: ");
            let d = dec_u64(message.operation as u64);
            s.append(d.as_str());
            s
        }
    }
}

/// Renders a four-byte protocol address as a dotted quad.
pub fn ipv4_addr_string(addr: &Vec<u8>) -> (s: String)
    requires
        addr@.len() == 4,
    ensures
        s@ == spec_ipv4_seq(addr@),
{
    ipv4_string(addr[0], addr[1], addr[2], addr[3])
}

} // verus!
