//! The IGMP layer: an eight-byte message of type, maximum response time,
//! checksum and group address.

use vstd::prelude::*;
use vstd::string::*;
use crate::render::{spec_ipv4, ipv4_string};
use crate::wire::{be16, read_be16, copy_range};

verus! {

/// A decoded IGMP message.
pub struct IgmpPacket {
    pub type_: u8,
    pub max_resp_time: u8,
    pub checksum: u16,
    pub group_address: Vec<u8>,
}

/// The IGMP message kinds.
#[derive(Debug, Clone, Copy, PartialEq, Eq, Structural)]
pub enum IgmpType {
    MembershipQuery,
    MembershipReportV1,
    MembershipReportV2,
    LeaveGroup,
    MembershipReportV3,
    Unknown,
}

/// The message kind a type byte denotes.
pub open spec fn spec_igmp_type(t: u8) -> IgmpType {
    if t == 0x11 {
        IgmpType::MembershipQuery
    } else if t == 0x12 {
        IgmpType::MembershipReportV1
    } else if t == 0x16 {
        IgmpType::MembershipReportV2
    } else if t == 0x17 {
        IgmpType::LeaveGroup
    } else if t == 0x22 {
        IgmpType::MembershipReportV3
    } else {
        IgmpType::Unknown
    }
}

/// The label of a message kind.
pub open spec fn spec_igmp_type_label(t: u8) -> Seq<char> {
    if t == 0x11 {
        "Membership Query"@
    } else if t == 0x12 {
        "Membership Report v1"@
    } else if t == 0x16 {
        "Membership Report v2"@
    } else if t == 0x17 {
        "Leave Group"@
    } else if t == 0x22 {
        "Membership Report v3"@
    } else {
        "Unknown"@
    }
}

/// The textual summary of an IGMP message: its kind and its group.
pub open spec fn spec_igmp_info(t: u8, group: Seq<u8>) -> Seq<char>
    recommends
        group.len() == 4,
{
    spec_igmp_type_label(t) + ", group "@ + spec_ipv4(group[0], group[1], group[2], group[3])
}

impl IgmpPacket {
    /// Decodes an IGMP message. Fails exactly on fewer than eight bytes.
    pub fn from_bytes(payload: &[u8]) -> (r: Result<IgmpPacket, String>)
        ensures
            r is Ok <==> payload@.len() >= 8,
            r matches Ok(p) ==> {
                &&& p.type_ == payload@[0]
                &&& p.max_resp_time == payload@[1]
                &&& p.checksum == be16(payload@, 2)
                &&& p.group_address@ == payload@.subrange(4, 8)
            },
            r matches Err(e) ==> e@ == "IGMP packet too short"@,
    {
        if payload.len() < 8 {
            return Err(String::from_str("IGMP packet too short"));
        }
        Ok(
            IgmpPacket {
                type_: payload[0],
                max_resp_time: payload[1],
                checksum: read_be16(payload, 2),
                group_address: copy_range(payload, 4, 8),
            },
        )
    }

    /// The message kind.
    pub fn get_type(&self) -> (t: IgmpType)
        ensures
            t == spec_igmp_type(self.type_),
    {
        if self.type_ == 0x11 {
            IgmpType::MembershipQuery
        } else if self.type_ == 0x12 {
            IgmpType::MembershipReportV1
        } else if self.type_ == 0x16 {
            IgmpType::MembershipReportV2
        } else if self.type_ == 0x17 {
            IgmpType::LeaveGroup
        } else if self.type_ == 0x22 {
            IgmpType::MembershipReportV3
        } else {
            IgmpType::Unknown
        }
    }

    /// The group address as a dotted quad.
    pub fn get_group_address(&self) -> (s: String)
        requires
            self.group_address@.len() == 4,
        ensures
            s@ == spec_ipv4(
                self.group_address@[0],
                self.group_address@[1],
                self.group_address@[2],
                self.group_address@[3],
            ),
    {
        ipv4_string(
            self.group_address[0],
            self.group_address[1],
            self.group_address[2],
            self.group_address[3],
        )
    }

    /// The textual summary: kind and group.
    pub fn format_info(&self) -> (s: String)
        requires
            self.group_address@.len() == 4,
        ensures
            s@ == spec_igmp_info(self.type_, self.group_address@),
    {
        let mut s: String;
        if self.type_ == 0x11 {
            s = String::from_str("Membership Query");
        } else if self.type_ == 0x12 {
            s = String::from_str("Membership Report v1");
        } else if self.type_ == 0x16 {
            s = String::from_str("Membership Report v2");
        } else if self.type_ == 0x17 {
            s = String::from_str("Leave Group");
        } else if self.type_ == 0x22 {
            s = String::from_str("Membership Report v3");
        } else {
            s = String::from_str("Unknown");
        }
        s.append(", group ");
        let g = self.get_group_address();
        s.append(g.as_str());
        s
    }
}

/// Decoder of the IGMP layer.
pub struct IgmpProcessor;

impl IgmpProcessor {
    /// Creates the decoder.
    pub fn new() -> (p: IgmpProcessor) {
        IgmpProcessor
    }

    /// Decodes an IGMP message. Fails exactly on fewer than eight bytes.
    pub fn process(&self, payload: &[u8]) -> (r: Result<IgmpPacket, String>)
        ensures
            r is Ok <==> payload@.len() >= 8,
            r matches Ok(p) ==> {
                &&& p.type_ == payload@[0]
                &&& p.max_resp_time == payload@[1]
                &&& p.checksum == be16(payload@, 2)
                &&& p.group_address@ == payload@.subrange(4, 8)
            },
            r matches Err(e) ==> e@ == "IGMP packet too short"@,
    {
        IgmpPacket::from_bytes(payload)
    }
}

} // verus!
