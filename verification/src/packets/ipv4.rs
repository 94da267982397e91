//! The IPv4 network layer. The header length field (in 32-bit words) and
//! the total length field bound the payload: the payload starts after the
//! header and options and carries `total length - header bytes` bytes,
//! clamped to what the buffer actually holds.

use vstd::prelude::*;
use crate::wire::{be16, read_be16, copy_range};

verus! {

/// A decoded IPv4 header with its payload.
pub struct Ipv4Header {
    pub source: Vec<u8>,
    pub destination: Vec<u8>,
    pub protocol: u8,
    pub header_length: u8,
    pub total_length: u16,
    pub payload: Vec<u8>,
}

/// Where the IPv4 payload starts: after the fixed header and the options,
/// which occupy `header length * 4 - 20` bytes when the header length
/// exceeds five words and nothing otherwise.
pub open spec fn spec_ipv4_payload_start(data: Seq<u8>) -> nat
    recommends
        data.len() >= 20,
{
    let hl4 = (data[0] % 16) as nat * 4;
    20 + if hl4 > 20 {
        (hl4 - 20) as nat
    } else {
        0
    }
}

/// The IPv4 payload: `total length - header bytes` bytes after the
/// header, clamped to the buffer; a buffer that ends inside the header
/// yields an empty payload.
pub open spec fn spec_ipv4_payload(data: Seq<u8>) -> Seq<u8>
    recommends
        data.len() >= 20,
{
    let start = spec_ipv4_payload_start(data);
    let hl4 = (data[0] % 16) as nat * 4;
    let total = be16(data, 2) as nat;
    let plen: nat = if total > hl4 {
        (total - hl4) as nat
    } else {
        0
    };
    if data.len() <= start {
        Seq::empty()
    } else {
        let end: nat = if start + plen <= data.len() {
            start + plen
        } else {
            data.len()
        };
        data.subrange(start as int, end as int)
    }
}

/// Decoder of the IPv4 network layer.
pub struct Ipv4Processor;

impl Ipv4Processor {
    /// Creates the decoder.
    pub fn new() -> (p: Ipv4Processor) {
        Ipv4Processor
    }

    /// Decodes an IPv4 header: succeeds exactly on twenty or more bytes,
    /// and then yields the addresses, the carried protocol and the
    /// payload the length fields delimit.
    pub fn process(&self, data: &[u8]) -> (r: Option<Ipv4Header>)
        ensures
            r is Some <==> data@.len() >= 20,
            r matches Some(h) ==> {
                &&& h.source@ == data@.subrange(12, 16)
                &&& h.destination@ == data@.subrange(16, 20)
                &&& h.protocol == data@[9]
                &&& h.header_length == data@[0] % 16
                &&& h.total_length == be16(data@, 2)
                &&& h.payload@ == spec_ipv4_payload(data@)
            },
    {
        if data.len() < 20 {
            return None;
        }
        let source = copy_range(data, 12, 16);
        let destination = copy_range(data, 16, 20);
        let protocol = data[9];
        let header_length = data[0] % 16;
        let total_length = read_be16(data, 2);
        let hl4 = header_length as usize * 4;
        let start = 20 + (if hl4 > 20 {
            hl4 - 20
        } else {
            0
        });
        let total = total_length as usize;
        let plen = if total > hl4 {
            total - hl4
        } else {
            0
        };
        let payload = if data.len() <= start {
            Vec::new()
        } else {
            let end = if start + plen <= data.len() {
                start + plen
            } else {
                data.len()
            };
            copy_range(data, start, end)
        };
        Some(Ipv4Header { source, destination, protocol, header_length, total_length, payload })
    }
}

} // verus!
