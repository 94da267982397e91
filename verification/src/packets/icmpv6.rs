//! The ICMPv6 layer: a four-byte header of type, code and checksum, then
//! the message body.

use vstd::prelude::*;
use crate::wire::copy_range;

verus! {

/// A decoded ICMPv6 message.
pub struct Icmpv6Message {
    pub icmpv6_type: u8,
    pub icmpv6_code: u8,
    pub payload: Vec<u8>,
}

/// Decoder of the ICMPv6 layer.
pub struct Icmpv6Processor;

impl Icmpv6Processor {
    /// Creates the decoder.
    pub fn new() -> (p: Icmpv6Processor) {
        Icmpv6Processor
    }

    /// Decodes an ICMPv6 message: succeeds exactly on four or more bytes,
    /// and then yields type, code and body.
    pub fn process(&self, data: &[u8]) -> (r: Option<Icmpv6Message>)
        ensures
            r is Some <==> data@.len() >= 4,
            r matches Some(m) ==> {
                &&& m.icmpv6_type == data@[0]
                &&& m.icmpv6_code == data@[1]
                &&& m.payload@ == data@.skip(4)
            },
    {
        if data.len() < 4 {
            return None;
        }
        let icmpv6_type = data[0];
        let icmpv6_code = data[1];
        let payload = copy_range(data, 4, data.len());
        proof {
            assert(data@.subrange(4, data@.len() as int) =~= data@.skip(4));
        }
        Some(Icmpv6Message { icmpv6_type, icmpv6_code, payload })
    }
}

} // verus!
