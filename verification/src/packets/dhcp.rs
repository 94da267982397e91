//! The DHCP layer: a fixed region of at least 240 bytes, then an option
//! list of `(code, length, value)` triplets that ends at code `0xFF` or at
//! the end of the buffer; an option that would overrun the buffer ends the
//! list.

use vstd::prelude::*;
use vstd::string::*;
use crate::packets::arp::{spec_ipv4_seq, ipv4_addr_string};
use crate::wire::{be16, be32, read_be16, read_be32, copy_range};

verus! {

/// One DHCP option triplet.
pub struct DhcpOption {
    pub code: u8,
    pub length: u8,
    pub value: Vec<u8>,
}

/// The mathematical model of an option triplet.
pub ghost struct DhcpOptionModel {
    pub code: u8,
    pub length: u8,
    pub value: Seq<u8>,
}

impl View for DhcpOption {
    type V = DhcpOptionModel;

    open spec fn view(&self) -> DhcpOptionModel {
        DhcpOptionModel { code: self.code, length: self.length, value: self.value@ }
    }
}

impl DeepView for DhcpOption {
    type V = DhcpOptionModel;

    open spec fn deep_view(&self) -> DhcpOptionModel {
        self.view()
    }
}

/// The option list read from offset `i`: stops at the terminator code, at
/// the end of the buffer, and before any triplet the buffer cannot hold.
pub open spec fn spec_dhcp_options(p: Seq<u8>, i: int) -> Seq<DhcpOptionModel>
    recommends
        0 <= i,
    decreases p.len() - i,
{
    if i < 0 || i >= p.len() {
        Seq::empty()
    } else if p[i] == 0xff {
        Seq::empty()
    } else if i + 1 >= p.len() {
        Seq::empty()
    } else {
        let len = p[i + 1] as int;
        if i + 2 + len > p.len() {
            Seq::empty()
        } else {
            seq![
                DhcpOptionModel {
                    code: p[i],
                    length: p[i + 1],
                    value: p.subrange(i + 2, i + 2 + len),
                },
            ] + spec_dhcp_options(p, i + 2 + len)
        }
    }
}

/// A decoded DHCP message.
pub struct DhcpPacket {
    pub op: u8,
    pub htype: u8,
    pub hlen: u8,
    pub hops: u8,
    pub xid: u32,
    pub secs: u16,
    pub flags: u16,
    pub ciaddr: Vec<u8>,
    pub yiaddr: Vec<u8>,
    pub siaddr: Vec<u8>,
    pub giaddr: Vec<u8>,
    pub chaddr: Vec<u8>,
    pub sname: Vec<u8>,
    pub file: Vec<u8>,
    pub options: Vec<DhcpOption>,
}

/// The name of a message-type option value.
pub open spec fn spec_dhcp_message_name(v: u8) -> Seq<char> {
    if v == 1 {
        "DHCPDISCOVER"@
    } else if v == 2 {
        "DHCPOFFER"@
    } else if v == 3 {
        "DHCPREQUEST"@
    } else if v == 4 {
        "DHCPDECLINE"@
    } else if v == 5 {
        "DHCPACK"@
    } else if v == 6 {
        "DHCPNAK"@
    } else if v == 7 {
        "DHCPRELEASE"@
    } else if v == 8 {
        "DHCPINFORM"@
    } else {
        "Unknown"@
    }
}

/// The message type the option list declares: the name of the first
/// message-type option's first value byte, or `Unknown`.
pub open spec fn spec_dhcp_message_type(opts: Seq<DhcpOptionModel>) -> Seq<char>
    decreases opts.len(),
{
    if opts.len() == 0 {
        "Unknown"@
    } else if opts[0].code == 53 {
        if opts[0].value.len() >= 1 {
            spec_dhcp_message_name(opts[0].value[0])
        } else {
            "Unknown"@
        }
    } else {
        spec_dhcp_message_type(opts.drop_first())
    }
}

impl DhcpPacket {
    /// Decodes a DHCP message. Fails exactly on fewer than 240 bytes;
    /// otherwise yields the fixed fields and the option list.
    pub fn from_bytes(payload: &[u8]) -> (r: Result<DhcpPacket, String>)
        ensures
            r is Ok <==> payload@.len() >= 240,
            r matches Err(e) ==> e@ == "DHCP packet too short"@,
            r matches Ok(d) ==> {
                &&& d.op == payload@[0]
                &&& d.htype == payload@[1]
                &&& d.hlen == payload@[2]
                &&& d.hops == payload@[3]
                &&& d.xid == be32(payload@, 4)
                &&& d.secs == be16(payload@, 8)
                &&& d.flags == be16(payload@, 10)
                &&& d.ciaddr@ == payload@.subrange(12, 16)
                &&& d.yiaddr@ == payload@.subrange(16, 20)
                &&& d.siaddr@ == payload@.subrange(20, 24)
                &&& d.giaddr@ == payload@.subrange(24, 28)
                &&& d.chaddr@ == payload@.subrange(28, 44)
                &&& d.sname@ == payload@.subrange(44, 108)
                &&& d.file@ == payload@.subrange(108, 236)
                &&& d.options.deep_view() == spec_dhcp_options(payload@, 240)
            },
    {
        if payload.len() < 240 {
            return Err(String::from_str("DHCP packet too short"));
        }
        let n = payload.len();
        let mut options: Vec<DhcpOption> = Vec::new();
        let mut i: usize = 240;
        let mut done = false;
        while i < n && !done
            invariant
                240 <= i,
                n == payload@.len(),
                done ==> spec_dhcp_options(payload@, i as int) == Seq::<DhcpOptionModel>::empty(),
                spec_dhcp_options(payload@, 240) == options.deep_view() + spec_dhcp_options(
                    payload@,
                    i as int,
                ),
            decreases n - i, (if done {
                0int
            } else {
                1int
            }),
        {
            if payload[i] == 0xff {
                done = true;
                continue;
            }
            if i + 1 >= n {
                done = true;
                continue;
            }
            let len = payload[i + 1] as usize;
            if len > n - (i + 2) {
                done = true;
                continue;
            }
            let value = copy_range(payload, i + 2, i + 2 + len);
            let ghost pre = options.deep_view();
            options.push(DhcpOption { code: payload[i], length: payload[i + 1], value });
            proof {
                let head = DhcpOptionModel {
                    code: payload@[i as int],
                    length: payload@[i as int + 1],
                    value: payload@.subrange(i as int + 2, i as int + 2 + len as int),
                };
                assert(options.deep_view() =~= pre + seq![head]);
                assert(spec_dhcp_options(payload@, i as int) == seq![head]
                    + spec_dhcp_options(payload@, i as int + 2 + len as int));
                assert(pre + (seq![head] + spec_dhcp_options(payload@, i as int + 2 + len as int))
                    =~= (pre + seq![head]) + spec_dhcp_options(
                    payload@,
                    i as int + 2 + len as int,
                ));
            }
            i = i + 2 + len;
        }
        proof {
            assert(spec_dhcp_options(payload@, i as int) =~= Seq::<DhcpOptionModel>::empty());
            assert(options.deep_view() + Seq::<DhcpOptionModel>::empty() =~= options.deep_view());
        }
        Ok(
            DhcpPacket {
                op: payload[0],
                htype: payload[1],
                hlen: payload[2],
                hops: payload[3],
                xid: read_be32(payload, 4),
                secs: read_be16(payload, 8),
                flags: read_be16(payload, 10),
                ciaddr: copy_range(payload, 12, 16),
                yiaddr: copy_range(payload, 16, 20),
                siaddr: copy_range(payload, 20, 24),
                giaddr: copy_range(payload, 24, 28),
                chaddr: copy_range(payload, 28, 44),
                sname: copy_range(payload, 44, 108),
                file: copy_range(payload, 108, 236),
                options,
            },
        )
    }

    /// The declared message type, by name.
    pub fn get_message_type(&self) -> (s: String)
        ensures
            s@ == spec_dhcp_message_type(self.options.deep_view()),
    {
        let n = self.options.len();
        let mut i: usize = 0;
        proof {
            assert(self.options.deep_view().skip(0) =~= self.options.deep_view());
        }
        while i < n
            invariant
                i <= n,
                n == self.options@.len(),
                self.options.deep_view().len() == n,
                spec_dhcp_message_type(self.options.deep_view()) == spec_dhcp_message_type(
                    self.options.deep_view().skip(i as int),
                ),
                forall|k: int|
                    0 <= k < n ==> #[trigger] self.options.deep_view()[k]
                        == self.options@[k].deep_view(),
            decreases n - i,
        {
            let opt = &self.options[i];
            proof {
                assert(self.options.deep_view().skip(i as int)[0] == opt.deep_view());
                assert(self.options.deep_view().skip(i as int).drop_first()
                    =~= self.options.deep_view().skip(i as int + 1));
            }
            if opt.code == 53 {
                if opt.value.len() >= 1 {
                    let v = opt.value[0];
                    return dhcp_message_name(v);
                } else {
                    return String::from_str("Unknown");
                }
            }
            i = i + 1;
        }
        String::from_str("Unknown")
    }

    /// The client address the message assigns, as a dotted quad.
    pub fn get_client_ip(&self) -> (s: String)
        requires
            self.yiaddr@.len() == 4,
        ensures
            s@ == spec_ipv4_seq(self.yiaddr@),
    {
        ipv4_addr_string(&self.yiaddr)
    }

    /// The server address of the message, as a dotted quad.
    pub fn get_server_ip(&self) -> (s: String)
        requires
            self.siaddr@.len() == 4,
        ensures
            s@ == spec_ipv4_seq(self.siaddr@),
    {
        ipv4_addr_string(&self.siaddr)
    }
}

fn dhcp_message_name(v: u8) -> (s: String)
    ensures
        s@ == spec_dhcp_message_name(v),
{
    if v == 1 {
        String::from_str("DHCPDISCOVER")
    } else if v == 2 {
        String::from_str("DHCPOFFER")
    } else if v == 3 {
        String::from_str("DHCPREQUEST")
    } else if v == 4 {
        String::from_str("DHCPDECLINE")
    } else if v == 5 {
        String::from_str("DHCPACK")
    } else if v == 6 {
        String::from_str("DHCPNAK")
    } else if v == 7 {
        String::from_str("DHCPRELEASE")
    } else if v == 8 {
        String::from_str("DHCPINFORM")
    } else {
        String::from_str("Unknown")
    }
}

/// Decoder of the DHCP layer.
pub struct DhcpProcessor;

impl DhcpProcessor {
    /// Creates the decoder.
    pub fn new() -> (p: DhcpProcessor) {
        DhcpProcessor
    }

    /// Decodes a DHCP message. Fails exactly on fewer than 240 bytes.
    pub fn process(&self, payload: &[u8]) -> (r: Result<DhcpPacket, String>)
        ensures
            r is Ok <==> payload@.len() >= 240,
            r matches Err(e) ==> e@ == "DHCP packet too short"@,
            r matches Ok(d) ==> {
                &&& d.op == payload@[0]
                &&& d.yiaddr@ == payload@.subrange(16, 20)
                &&& d.siaddr@ == payload@.subrange(20, 24)
                &&& d.options.deep_view() == spec_dhcp_options(payload@, 240)
            },
    {
        DhcpPacket::from_bytes(payload)
    }
}

} // verus!
