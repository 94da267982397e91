//! The UDP transport layer: an eight-byte header followed by the payload.

use vstd::prelude::*;
use crate::wire::{be16, read_be16, copy_range};

verus! {

/// A decoded UDP header with its payload.
pub struct UdpDatagram {
    pub source: u16,
    pub destination: u16,
    pub length: u16,
    pub payload: Vec<u8>,
}

/// Decoder of the UDP transport layer.
pub struct UdpProcessor;

impl UdpProcessor {
    /// Creates the decoder.
    pub fn new() -> (p: UdpProcessor) {
        UdpProcessor
    }

    /// Decodes a UDP header: succeeds exactly on eight or more bytes, and
    /// then yields the ports and everything after the header as payload.
    pub fn process(&self, data: &[u8]) -> (r: Option<UdpDatagram>)
        ensures
            r is Some <==> data@.len() >= 8,
            r matches Some(d) ==> {
                &&& d.source == be16(data@, 0)
                &&& d.destination == be16(data@, 2)
                &&& d.length == be16(data@, 4)
                &&& d.payload@ == data@.skip(8)
            },
    {
        if data.len() < 8 {
            return None;
        }
        let source = read_be16(data, 0);
        let destination = read_be16(data, 2);
        let length = read_be16(data, 4);
        let payload = copy_range(data, 8, data.len());
        proof {
            assert(data@.subrange(8, data@.len() as int) =~= data@.skip(8));
        }
        Some(UdpDatagram { source, destination, length, payload })
    }
}

} // verus!
