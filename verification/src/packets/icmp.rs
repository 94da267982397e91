//! The ICMP layer: a four-byte header of type, code and checksum, then the
//! message body. The type is summarized as text; echo messages whose body
//! is long enough also report identifier and sequence number.

use vstd::prelude::*;
use vstd::string::*;
use crate::render::spec_dec;
use crate::render::dec_u64;
use crate::wire::{be16, read_be16, copy_range};

verus! {

/// A decoded ICMP message.
pub struct IcmpMessage {
    pub icmp_type: u8,
    pub icmp_code: u8,
    pub payload: Vec<u8>,
}

/// The id/seq suffix of an echo summary, present when the body carries
/// at least eight bytes.
pub open spec fn spec_echo_suffix(payload: Seq<u8>) -> Seq<char> {
    if payload.len() >= 8 {
        " (id="@ + spec_dec(be16(payload, 4) as nat) + ", seq="@ + spec_dec(
            be16(payload, 6) as nat,
        ) + ")"@
    } else {
        Seq::empty()
    }
}

/// The textual summary of an ICMP message type.
pub open spec fn spec_icmp_type_string(t: u8, payload: Seq<u8>) -> Seq<char> {
    if t == 8 {
        "Echo Request"@ + spec_echo_suffix(payload)
    } else if t == 0 {
        "Echo Reply"@ + spec_echo_suffix(payload)
    } else if t == 3 {
        "Destination Unreachable"@
    } else if t == 11 {
        "Time Exceeded"@
    } else if t == 12 {
        "Parameter Problem"@
    } else if t == 4 {
        "Source Quench"@
    } else if t == 14 {
        "Timestamp Reply"@
    } else if t == 17 {
        "Address Mask Request"@
    } else if t == 18 {
        "Address Mask Reply"@
    } else {
        "Unknown ICMP type: "@ + spec_dec(t as nat)
    }
}

/// Decoder of the ICMP layer.
pub struct IcmpProcessor;

impl IcmpProcessor {
    /// Creates the decoder.
    pub fn new() -> (p: IcmpProcessor) {
        IcmpProcessor
    }

    /// Decodes an ICMP message: succeeds exactly on four or more bytes,
    /// and then yields type, code and body.
    pub fn process(&self, data: &[u8]) -> (r: Option<IcmpMessage>)
        ensures
            r is Some <==> data@.len() >= 4,
            r matches Some(m) ==> {
                &&& m.icmp_type == data@[0]
                &&& m.icmp_code == data@[1]
                &&& m.payload@ == data@.skip(4)
            },
    {
        if data.len() < 4 {
            return None;
        }
        let icmp_type = data[0];
        let icmp_code = data[1];
        let payload = copy_range(data, 4, data.len());
        proof {
            assert(data@.subrange(4, data@.len() as int) =~= data@.skip(4));
        }
        Some(IcmpMessage { icmp_type, icmp_code, payload })
    }

    /// Summarizes the message type as text.
    pub fn get_icmp_type(&self, message: &IcmpMessage) -> (s: String)
        ensures
            s@ == spec_icmp_type_string(message.icmp_type, message.payload@),
    {
        let t = message.icmp_type;
        if t == 8 {
            let mut s = String::from_str("Echo Request");
            let suffix = echo_suffix(&message.payload);
            s.append(suffix.as_str());
            s
        } else if t == 0 {
            let mut s = String::from_str("Echo Reply");
            let suffix = echo_suffix(&message.payload);
            s.append(suffix.as_str());
            s
        } else if t == 3 {
            String::from_str("Destination Unreachable")
        } else if t == 11 {
            String::from_str("Time Exceeded")
        } else if t == 12 {
            String::from_str("Parameter Problem")
        } else if t == 4 {
            String::from_str("Source Quench")
        } else if t == 14 {
            String::from_str("Timestamp Reply")
        } else if t == 17 {
            String::from_str("Address Mask Request")
        } else if t == 18 {
            String::from_str("Address Mask Reply")
        } else {
            let mut s = String::from_str("Unknown ICMP type: ");
            let d = dec_u64(t as u64);
            s.append(d.as_str());
            s
        }
    }
}

fn echo_suffix(payload: &Vec<u8>) -> (s: String)
    ensures
        s@ == spec_echo_suffix(payload@),
{
    if payload.len() >= 8 {
        let mut s = String::from_str(" (id=");
        let id = dec_u64(read_be16(payload.as_slice(), 4) as u64);
        s.append(id.as_str());
        s.append(", seq=");
        let sq = dec_u64(read_be16(payload.as_slice(), 6) as u64);
        s.append(sq.as_str());
        s.append(")");
        s
    } else {
        String::new()
    }
}

} // verus!
