//! The link layer: an Ethernet frame is a six-byte destination address, a
//! six-byte source address, a big-endian ethertype, and the payload.

use vstd::prelude::*;
use crate::wire::{be16, read_be16, copy_range};

verus! {

/// A decoded Ethernet header with its payload.
pub struct EthernetFrame {
    pub destination: Vec<u8>,
    pub source: Vec<u8>,
    pub ethertype: u16,
    pub payload: Vec<u8>,
}

/// Decoder of the Ethernet link layer.
pub struct EthernetProcessor;

impl EthernetProcessor {
    /// Creates the decoder.
    pub fn new() -> (p: EthernetProcessor) {
        EthernetProcessor
    }

    /// Decodes an Ethernet frame: succeeds exactly on fourteen or more
    /// bytes, and then yields the addresses, the ethertype and the
    /// payload after the header.
    pub fn process(&self, data: &[u8]) -> (r: Option<EthernetFrame>)
        ensures
            r is Some <==> data@.len() >= 14,
            r matches Some(f) ==> {
                &&& f.destination@ == data@.subrange(0, 6)
                &&& f.source@ == data@.subrange(6, 12)
                &&& f.ethertype == be16(data@, 12)
                &&& f.payload@ == data@.skip(14)
            },
    {
        if data.len() < 14 {
            return None;
        }
        let destination = copy_range(data, 0, 6);
        let source = copy_range(data, 6, 12);
        let ethertype = read_be16(data, 12);
        let payload = copy_range(data, 14, data.len());
        proof {
            assert(data@.subrange(14, data@.len() as int) =~= data@.skip(14));
        }
        Some(EthernetFrame { destination, source, ethertype, payload })
    }
}

} // verus!
