//! The IPv6 network layer: a fixed forty-byte header whose payload length
//! field bounds the payload, clamped to what the buffer holds.

use vstd::prelude::*;
use crate::wire::{be16, read_be16, copy_range};

verus! {

/// A decoded IPv6 header with its payload. Addresses are held as their
/// eight sixteen-bit groups.
pub struct Ipv6Header {
    pub source: Vec<u16>,
    pub destination: Vec<u16>,
    pub next_header: u8,
    pub payload_length: u16,
    pub payload: Vec<u8>,
}

/// The eight address groups starting at a byte offset.
pub open spec fn spec_ipv6_groups(data: Seq<u8>, at: int) -> Seq<u16>
    recommends
        0 <= at,
        at + 16 <= data.len(),
{
    Seq::new(8, |i: int| be16(data, at + 2 * i))
}

/// The IPv6 payload: `payload length` bytes after the fixed header,
/// clamped to the buffer.
pub open spec fn spec_ipv6_payload(data: Seq<u8>) -> Seq<u8>
    recommends
        data.len() >= 40,
{
    let plen = be16(data, 4) as nat;
    if data.len() <= 40 {
        Seq::empty()
    } else {
        let end: nat = if 40 + plen <= data.len() {
            40 + plen
        } else {
            data.len()
        };
        data.subrange(40, end as int)
    }
}

/// Decoder of the IPv6 network layer.
pub struct Ipv6Processor;

impl Ipv6Processor {
    /// Creates the decoder.
    pub fn new() -> (p: Ipv6Processor) {
        Ipv6Processor
    }

    /// Decodes an IPv6 header: succeeds exactly on forty or more bytes,
    /// and then yields the address groups, the next-header protocol and
    /// the payload the length field delimits.
    pub fn process(&self, data: &[u8]) -> (r: Option<Ipv6Header>)
        ensures
            r is Some <==> data@.len() >= 40,
            r matches Some(h) ==> {
                &&& h.source@ == spec_ipv6_groups(data@, 8)
                &&& h.destination@ == spec_ipv6_groups(data@, 24)
                &&& h.next_header == data@[6]
                &&& h.payload_length == be16(data@, 4)
                &&& h.payload@ == spec_ipv6_payload(data@)
            },
    {
        if data.len() < 40 {
            return None;
        }
        let source = read_groups(data, 8);
        let destination = read_groups(data, 24);
        let next_header = data[6];
        let payload_length = read_be16(data, 4);
        let plen = payload_length as usize;
        let payload = if data.len() <= 40 {
            Vec::new()
        } else {
            let end = if 40 + plen <= data.len() {
                40 + plen
            } else {
                data.len()
            };
            copy_range(data, 40, end)
        };
        Some(Ipv6Header { source, destination, next_header, payload_length, payload })
    }
}

fn read_groups(data: &[u8], at: usize) -> (r: Vec<u16>)
    requires
        at + 16 <= data@.len(),
    ensures
        r@ == spec_ipv6_groups(data@, at as int),
{
    let n = data.len();
    let mut r: Vec<u16> = Vec::new();
    let mut i: usize = 0;
    while i < 8
        invariant
            i <= 8,
            at + 16 <= data@.len(),
            data@.len() == n,
            r@.len() == i,
            forall|k: int| 0 <= k < i ==> r@[k] == be16(data@, at + 2 * k),
        decreases 8 - i,
    {
        r.push(read_be16(data, at + 2 * i));
        i = i + 1;
    }
    proof {
        assert(r@ =~= spec_ipv6_groups(data@, at as int));
    }
    r
}

} // verus!
