//! The dissector engine: a layered, best-effort decode of raw frame bytes
//! into a structured record. Link layer, then network layer, then
//! transport layer, then an application-layer attempt by well-known port;
//! a failed sub-layer parse degrades to a generic label and never to an
//! error.

pub mod arp;
pub mod dhcp;
pub mod dns;
pub mod ethernet;
pub mod ftp;
pub mod http;
pub mod icmp;
pub mod icmpv6;
pub mod igmp;
pub mod smb;
pub mod ipv4;
pub mod ipv6;
pub mod tcp;
pub mod tls;
pub mod udp;

pub use arp::ArpProcessor;
pub use dhcp::DhcpProcessor;
pub use dns::DnsProcessor;
pub use ethernet::EthernetProcessor;
pub use ftp::FtpProcessor;
pub use http::HttpProcessor;
pub use icmp::IcmpProcessor;
pub use icmpv6::Icmpv6Processor;
pub use igmp::IgmpProcessor;
pub use smb::SmbProcessor;
pub use ipv4::Ipv4Processor;
pub use ipv6::Ipv6Processor;
pub use tcp::TcpProcessor;
pub use tls::TlsProcessor;
pub use udp::UdpProcessor;

use vstd::prelude::*;
use vstd::string::*;
use vstd::utf8::{valid_utf8, decode_utf8};
use crate::render::{spec_dec, dec_usize, dec_u64, spec_hex4, hex4_u16, spec_format_mac,
    format_mac, spec_ipv6, ipv6_string, spec_timestamp, timestamp_string, ascii_chars,
    ascii_to_string};
use crate::trace::RawFrame;
use crate::wire::{be16, be32};
use crate::packets::arp::spec_ipv4_seq;
use crate::packets::arp::ipv4_addr_string;
use crate::packets::arp::spec_arp_info;
use crate::packets::dhcp::{spec_dhcp_options, spec_dhcp_message_type};
use crate::packets::dns::{spec_dns_ok, spec_questions, spec_answers, spec_query_info};
use crate::packets::ftp::{spec_all_digits, spec_find_space, spec_trim};
use crate::packets::http::{spec_http_request_shape, spec_http_response_shape, spec_req_s1,
    spec_req_s2, spec_resp_e2, spec_find_eol, spec_find_host};
use crate::packets::icmp::spec_icmp_type_string;
use crate::packets::igmp::spec_igmp_info;
use crate::packets::ipv4::spec_ipv4_payload;
use crate::packets::ipv6::{spec_ipv6_groups, spec_ipv6_payload};
use crate::packets::smb::spec_smb_command_name;
use crate::packets::tcp::{spec_tcp_payload, spec_tcp_options, spec_tcp_info};
use crate::packets::tls::{spec_tls_version, spec_tls_content_type, spec_tls_handshake_label,
    spec_tls_format_info};

verus! {

/// One dissected frame: capture time, endpoints, protocol label, frame
/// length and a protocol-specific detail line. Derived deterministically
/// from the frame bytes and timestamp alone.
pub struct PacketInfo {
    pub timestamp: String,
    pub source_ip: String,
    pub destination_ip: String,
    pub protocol: String,
    pub length: usize,
    pub details: String,
}

/// The mathematical model of a classification: the four text fields the
/// dissector derives from the frame bytes.
pub ghost struct Classified {
    pub source: Seq<char>,
    pub destination: Seq<char>,
    pub protocol: Seq<char>,
    pub details: Seq<char>,
}

/// The fully degraded classification of a frame no layer could read.
pub open spec fn spec_degraded(len: nat) -> Classified {
    Classified {
        source: "Unknown"@,
        destination: "Unknown"@,
        protocol: "Unknown"@,
        details: "Unknown protocol, length "@ + spec_dec(len),
    }
}

/// Whether either port is a conventional TLS port.
pub open spec fn spec_is_tls_port(sp: u16, dp: u16) -> bool {
    ||| sp == 443 || dp == 443
    ||| sp == 465 || dp == 465
    ||| sp == 993 || dp == 993
    ||| sp == 995 || dp == 995
}

/// Whether a TLS record parse succeeds on the payload.
pub open spec fn spec_tls_ok(p: Seq<u8>) -> bool {
    p.len() >= 5 && p.len() >= 5 + be16(p, 3) as nat
}

/// The TLS detail line: version, then the record summary.
pub open spec fn spec_tls_details(p: Seq<u8>) -> Seq<char>
    recommends
        spec_tls_ok(p),
{
    spec_tls_version(be16(p, 1)) + " - "@ + spec_tls_format_info(
        spec_tls_version(be16(p, 1)),
        spec_tls_content_type(p[0]),
        spec_tls_handshake_label(p),
    )
}

/// The HTTP detail line: method, path and host of a request, or the
/// status of a response.
pub open spec fn spec_http_details(p: Seq<u8>) -> Seq<char>
    recommends
        spec_http_request_shape(p) || spec_http_response_shape(p),
{
    if spec_http_request_shape(p) {
        ascii_chars(p.subrange(0, spec_req_s1(p))) + seq![' '] + ascii_chars(
            p.subrange(spec_req_s1(p) + 1, spec_req_s2(p)),
        ) + seq![' '] + spec_find_host(p, spec_find_eol(p, 0))
    } else {
        "Response "@ + ascii_chars(p.subrange(spec_req_s1(p) + 1, spec_resp_e2(p)))
            + " Server"@
    }
}

/// The FTP detail line: the command text, or the joined response code and
/// message, over the decoded text of the payload.
pub open spec fn spec_ftp_details(p: Seq<u8>) -> Seq<char>
    recommends
        valid_utf8(p),
{
    let text = decode_utf8(p);
    match spec_find_space(text, 0) {
        Some(sp) => if spec_all_digits(text.subrange(0, sp)) {
            text.subrange(0, sp) + seq![' '] + spec_trim(text.skip(sp + 1))
        } else {
            spec_trim(text)
        },
        None => spec_trim(text),
    }
}

/// The DNS detail line: the message summary.
pub open spec fn spec_dns_details(p: Seq<u8>) -> Seq<char>
    recommends
        spec_dns_ok(p),
{
    let qs = spec_questions(p, 12, be16(p, 4) as nat).unwrap();
    let ans = spec_answers(p, qs.1, be16(p, 6) as nat).unwrap();
    let ns = spec_answers(p, ans.1, be16(p, 8) as nat).unwrap();
    spec_query_info(be16(p, 0), p[2] < 128, p[3] % 16, qs.0, ans.0, ns.0)
}

/// The DHCP detail line: message type, assigned client address and
/// server address.
pub open spec fn spec_dhcp_details(p: Seq<u8>) -> Seq<char>
    recommends
        p.len() >= 240,
{
    "DHCP "@ + spec_dhcp_message_type(spec_dhcp_options(p, 240)) + ", client "@ + spec_ipv4_seq(
        p.subrange(16, 20),
    ) + ", server "@ + spec_ipv4_seq(p.subrange(20, 24))
}

/// The protocol label and detail line of a TCP segment between two
/// rendered addresses: an application attempt in the fixed priority
/// order TLS, SMB, HTTP, FTP by well-known port, falling back to the
/// transport summary when the application parse fails.
pub open spec fn spec_tcp_branch(src: Seq<char>, dst: Seq<char>, seg: Seq<u8>) -> (
    Seq<char>,
    Seq<char>,
) {
    if seg.len() < 20 {
        ("Unknown"@, "Unknown protocol, length "@ + spec_dec(seg.len()))
    } else {
        let sp = be16(seg, 0);
        let dp = be16(seg, 2);
        let pl = spec_tcp_payload(seg);
        let tcp_info = spec_tcp_info(
            src,
            dst,
            sp,
            dp,
            seg[13],
            be32(seg, 4),
            be32(seg, 8),
            be16(seg, 14),
            pl.len(),
            spec_tcp_options(seg),
        );
        if spec_is_tls_port(sp, dp) {
            if spec_tls_ok(pl) {
                ("TLS"@, spec_tls_details(pl))
            } else {
                ("TCP"@, tcp_info)
            }
        } else if sp == 445 || dp == 445 {
            if pl.len() >= 32 && crate::packets::smb::spec_smb_signature_ok(pl) {
                ("SMB"@, "SMB Packet - Command: "@ + spec_smb_command_name(pl[4]))
            } else {
                ("TCP"@, tcp_info)
            }
        } else if sp == 80 || dp == 80 {
            if spec_http_request_shape(pl) || spec_http_response_shape(pl) {
                ("HTTP"@, spec_http_details(pl))
            } else {
                ("TCP"@, tcp_info)
            }
        } else if sp == 21 || dp == 21 {
            if valid_utf8(pl) {
                ("FTP"@, spec_ftp_details(pl))
            } else {
                ("TCP"@, tcp_info)
            }
        } else {
            ("TCP"@, tcp_info)
        }
    }
}

/// The transport summary of a UDP datagram.
pub open spec fn spec_udp_summary(src: Seq<char>, dst: Seq<char>, seg: Seq<u8>) -> Seq<char>
    recommends
        seg.len() >= 8,
{
    src + seq![':'] + spec_dec(be16(seg, 0) as nat) + " > "@ + dst + seq![':'] + spec_dec(
        be16(seg, 2) as nat,
    ) + " UDP, length "@ + spec_dec(seg.len())
}

/// The protocol label and detail line of a UDP datagram: a DNS attempt
/// on its port, a DHCP attempt on its ports, the transport summary
/// otherwise or when the application parse fails.
pub open spec fn spec_udp_branch(src: Seq<char>, dst: Seq<char>, seg: Seq<u8>) -> (
    Seq<char>,
    Seq<char>,
) {
    if seg.len() < 8 {
        ("Unknown"@, "Unknown protocol, length "@ + spec_dec(seg.len()))
    } else {
        let sp = be16(seg, 0);
        let dp = be16(seg, 2);
        let pl = seg.skip(8);
        if sp == 53 || dp == 53 {
            if spec_dns_ok(pl) {
                ("DNS"@, spec_dns_details(pl))
            } else {
                ("UDP"@, spec_udp_summary(src, dst, seg))
            }
        } else if sp == 67 || dp == 67 || sp == 68 || dp == 68 {
            if pl.len() >= 240 {
                ("DHCP"@, spec_dhcp_details(pl))
            } else {
                ("UDP"@, spec_udp_summary(src, dst, seg))
            }
        } else {
            ("UDP"@, spec_udp_summary(src, dst, seg))
        }
    }
}

/// The classification of an IPv4 packet.
pub open spec fn spec_classify_ipv4(payload: Seq<u8>) -> Classified {
    if payload.len() < 20 {
        spec_degraded(payload.len())
    } else {
        let src = spec_ipv4_seq(payload.subrange(12, 16));
        let dst = spec_ipv4_seq(payload.subrange(16, 20));
        let proto = payload[9];
        let seg = spec_ipv4_payload(payload);
        if proto == 6 {
            let b = spec_tcp_branch(src, dst, seg);
            Classified { source: src, destination: dst, protocol: b.0, details: b.1 }
        } else if proto == 17 {
            let b = spec_udp_branch(src, dst, seg);
            Classified { source: src, destination: dst, protocol: b.0, details: b.1 }
        } else if proto == 1 {
            if seg.len() < 4 {
                Classified {
                    source: src,
                    destination: dst,
                    protocol: "Unknown"@,
                    details: "Unknown protocol, length "@ + spec_dec(seg.len()),
                }
            } else {
                Classified {
                    source: src,
                    destination: dst,
                    protocol: "ICMP"@,
                    details: src + " > "@ + dst + ": "@ + spec_icmp_type_string(
                        seg[0],
                        seg.skip(4),
                    ),
                }
            }
        } else if proto == 2 {
            if seg.len() >= 8 {
                Classified {
                    source: src,
                    destination: dst,
                    protocol: "IGMP"@,
                    details: spec_igmp_info(seg[0], seg.subrange(4, 8)),
                }
            } else {
                Classified {
                    source: src,
                    destination: dst,
                    protocol: "IGMP"@,
                    details: "Unknown IGMP packet, length "@ + spec_dec(seg.len()),
                }
            }
        } else {
            Classified {
                source: src,
                destination: dst,
                protocol: "Unknown("@ + spec_dec(proto as nat) + ")"@,
                details: "Unknown protocol, length "@ + spec_dec(seg.len()),
            }
        }
    }
}

/// The classification of an IPv6 packet: transport summaries only.
pub open spec fn spec_classify_ipv6(payload: Seq<u8>) -> Classified {
    if payload.len() < 40 {
        spec_degraded(payload.len())
    } else {
        let src = spec_ipv6(spec_ipv6_groups(payload, 8));
        let dst = spec_ipv6(spec_ipv6_groups(payload, 24));
        let nh = payload[6];
        let seg = spec_ipv6_payload(payload);
        if nh == 6 {
            if seg.len() < 20 {
                Classified {
                    source: src,
                    destination: dst,
                    protocol: "Unknown"@,
                    details: "Unknown protocol, length "@ + spec_dec(seg.len()),
                }
            } else {
                Classified {
                    source: src,
                    destination: dst,
                    protocol: "TCP"@,
                    details: "Flags ["@ + spec_dec(seg[13] as nat) + "], seq "@ + spec_dec(
                        be32(seg, 4) as nat,
                    ) + ", ack "@ + spec_dec(be32(seg, 8) as nat) + ", win "@ + spec_dec(
                        be16(seg, 14) as nat,
                    ) + ", length "@ + spec_dec(seg.len()),
                }
            }
        } else if nh == 17 {
            if seg.len() < 8 {
                Classified {
                    source: src,
                    destination: dst,
                    protocol: "Unknown"@,
                    details: "Unknown protocol, length "@ + spec_dec(seg.len()),
                }
            } else {
                Classified {
                    source: src,
                    destination: dst,
                    protocol: "UDP"@,
                    details: "UDP, length "@ + spec_dec(seg.len()),
                }
            }
        } else if nh == 58 {
            if seg.len() < 4 {
                Classified {
                    source: src,
                    destination: dst,
                    protocol: "Unknown"@,
                    details: "Unknown protocol, length "@ + spec_dec(seg.len()),
                }
            } else {
                Classified {
                    source: src,
                    destination: dst,
                    protocol: "ICMPv6"@,
                    details: src + " > "@ + dst + ": ICMPv6, length "@ + spec_dec(seg.len()),
                }
            }
        } else {
            Classified {
                source: src,
                destination: dst,
                protocol: "Unknown("@ + spec_dec(nh as nat) + ")"@,
                details: src + " > "@ + dst + ": Unknown protocol"@,
            }
        }
    }
}

/// The classification of an ARP message: endpoints are the frame's
/// hardware addresses.
pub open spec fn spec_classify_arp(data: Seq<u8>, payload: Seq<u8>) -> Classified
    recommends
        data.len() >= 14,
        payload == data.skip(14),
{
    if payload.len() < 28 {
        spec_degraded(payload.len())
    } else {
        Classified {
            source: spec_format_mac(data.subrange(6, 12)),
            destination: spec_format_mac(data.subrange(0, 6)),
            protocol: "ARP"@,
            details: spec_arp_info(
                be16(payload, 6),
                payload.subrange(8, 14),
                payload.subrange(14, 18),
                payload.subrange(24, 28),
            ),
        }
    }
}

/// The classification of a frame: link layer, network layer, transport
/// layer, then an application attempt; every failed sub-layer parse
/// degrades to a generic label.
pub open spec fn spec_classify(data: Seq<u8>) -> Classified {
    if data.len() < 14 {
        spec_degraded(data.len())
    } else {
        let et = be16(data, 12);
        let payload = data.skip(14);
        if et == 0x0800 {
            spec_classify_ipv4(payload)
        } else if et == 0x86DD {
            spec_classify_ipv6(payload)
        } else if et == 0x0806 {
            spec_classify_arp(data, payload)
        } else {
            Classified {
                source: "Unknown"@,
                destination: "Unknown"@,
                protocol: "Unknown"@,
                details: "Unknown ethertype: 0x"@ + spec_hex4(et as nat),
            }
        }
    }
}

/// The dissector engine: one decoder per layer, applied in order.
pub struct PacketProcessor {
    debug_mode: bool,
    tcp_processor: TcpProcessor,
    udp_processor: UdpProcessor,
    icmp_processor: IcmpProcessor,
    icmpv6_processor: Icmpv6Processor,
    ipv4_processor: Ipv4Processor,
    ipv6_processor: Ipv6Processor,
    ethernet_processor: EthernetProcessor,
    arp_processor: ArpProcessor,
    dns_processor: DnsProcessor,
    dhcp_processor: DhcpProcessor,
    http_processor: HttpProcessor,
    tls_processor: TlsProcessor,
    igmp_processor: IgmpProcessor,
    smb_processor: SmbProcessor,
    ftp_processor: FtpProcessor,
}

fn unknown_detail(len: usize) -> (s: String)
    ensures
        s@ == "Unknown protocol, length "@ + spec_dec(len as nat),
{
    let mut s = String::from_str("Unknown protocol, length ");
    let d = dec_usize(len);
    s.append(d.as_str());
    s
}

impl PacketProcessor {
    /// Creates the engine.
    pub fn new(debug_mode: bool) -> (p: PacketProcessor) {
        PacketProcessor {
            debug_mode,
            tcp_processor: TcpProcessor::new(),
            udp_processor: UdpProcessor::new(),
            icmp_processor: IcmpProcessor::new(),
            icmpv6_processor: Icmpv6Processor::new(),
            ipv4_processor: Ipv4Processor::new(),
            ipv6_processor: Ipv6Processor::new(),
            ethernet_processor: EthernetProcessor::new(),
            arp_processor: ArpProcessor::new(),
            dns_processor: DnsProcessor::new(),
            dhcp_processor: DhcpProcessor::new(),
            http_processor: HttpProcessor::new(),
            tls_processor: TlsProcessor::new(),
            igmp_processor: IgmpProcessor::new(),
            smb_processor: SmbProcessor::new(),
            ftp_processor: FtpProcessor::new(),
        }
    }

    /// Dissects one frame into a record: the timestamp is rendered from
    /// the frame's capture time, the length is the frame's byte count,
    /// and endpoints, protocol and details follow the layered
    /// classification of the bytes.
    pub fn process_packet(&self, frame: &RawFrame) -> (info: PacketInfo)
        ensures
            ({
                let c = spec_classify(frame.data@);
                &&& info.timestamp@ == spec_timestamp(frame.ts_sec, frame.ts_usec)
                &&& info.length == frame.data@.len()
                &&& info.source_ip@ == c.source
                &&& info.destination_ip@ == c.destination
                &&& info.protocol@ == c.protocol
                &&& info.details@ == c.details
            }),
    {
        let timestamp = timestamp_string(frame.ts_sec, frame.ts_usec);
        let length = frame.data.len();
        let (source_ip, destination_ip, protocol, details) = self.classify(frame.data.as_slice());
        PacketInfo { timestamp, source_ip, destination_ip, protocol, length, details }
    }

    fn classify(&self, data: &[u8]) -> (r: (String, String, String, String))
        ensures
            ({
                let c = spec_classify(data@);
                &&& r.0@ == c.source
                &&& r.1@ == c.destination
                &&& r.2@ == c.protocol
                &&& r.3@ == c.details
            }),
    {
        match self.ethernet_processor.process(data) {
            None => {
                (
                    String::from_str("Unknown"),
                    String::from_str("Unknown"),
                    String::from_str("Unknown"),
                    unknown_detail(data.len()),
                )
            },
            Some(eth) => {
                if eth.ethertype == 0x0800 {
                    self.classify_ipv4(&eth.payload)
                } else if eth.ethertype == 0x86DD {
                    self.classify_ipv6(&eth.payload)
                } else if eth.ethertype == 0x0806 {
                    if eth.payload.len() < 28 {
                        (
                            String::from_str("Unknown"),
                            String::from_str("Unknown"),
                            String::from_str("Unknown"),
                            unknown_detail(eth.payload.len()),
                        )
                    } else {
                        match self.arp_processor.process(eth.payload.as_slice()) {
                            Some(arp) => {
                                let src = format_mac(eth.source.as_slice());
                                let dst = format_mac(eth.destination.as_slice());
                                let det = ArpProcessor::format_arp_info(&arp);
                                proof {
                                    assert(data@.subrange(6, 12) =~= eth.source@);
                                    assert(data@.subrange(0, 6) =~= eth.destination@);
                                }
                                (src, dst, String::from_str("ARP"), det)
                            },
                            None => {
                                // unreachable: length was checked
                                (
                                    String::from_str("Unknown"),
                                    String::from_str("Unknown"),
                                    String::from_str("Unknown"),
                                    unknown_detail(eth.payload.len()),
                                )
                            },
                        }
                    }
                } else {
                    let mut det = String::from_str("Unknown ethertype: 0x");
                    let h = hex4_u16(eth.ethertype);
                    det.append(h.as_str());
                    (
                        String::from_str("Unknown"),
                        String::from_str("Unknown"),
                        String::from_str("Unknown"),
                        det,
                    )
                }
            },
        }
    }

    fn classify_ipv4(&self, payload: &Vec<u8>) -> (r: (String, String, String, String))
        ensures
            ({
                let c = spec_classify_ipv4(payload@);
                &&& r.0@ == c.source
                &&& r.1@ == c.destination
                &&& r.2@ == c.protocol
                &&& r.3@ == c.details
            }),
    {
        match self.ipv4_processor.process(payload.as_slice()) {
            None => {
                (
                    String::from_str("Unknown"),
                    String::from_str("Unknown"),
                    String::from_str("Unknown"),
                    unknown_detail(payload.len()),
                )
            },
            Some(h) => {
                let src = ipv4_addr_string(&h.source);
                let dst = ipv4_addr_string(&h.destination);
                if h.protocol == 6 {
                    let (proto, det) = self.tcp_branch(&src, &dst, &h.payload);
                    (src, dst, proto, det)
                } else if h.protocol == 17 {
                    let (proto, det) = self.udp_branch(&src, &dst, &h.payload);
                    (src, dst, proto, det)
                } else if h.protocol == 1 {
                    match self.icmp_processor.process(h.payload.as_slice()) {
                        Some(m) => {
                            let mut det = src.clone();
                            det.append(" > ");
                            det.append(dst.as_str());
                            det.append(": ");
                            let t = self.icmp_processor.get_icmp_type(&m);
                            det.append(t.as_str());
                            (src, dst, String::from_str("ICMP"), det)
                        },
                        None => {
                            let det = unknown_detail(h.payload.len());
                            (src, dst, String::from_str("Unknown"), det)
                        },
                    }
                } else if h.protocol == 2 {
                    match self.igmp_processor.process(h.payload.as_slice()) {
                        Ok(g) => {
                            let det = g.format_info();
                            (src, dst, String::from_str("IGMP"), det)
                        },
                        Err(_) => {
                            let mut det = String::from_str("Unknown IGMP packet, length ");
                            let d = dec_usize(h.payload.len());
                            det.append(d.as_str());
                            (src, dst, String::from_str("IGMP"), det)
                        },
                    }
                } else {
                    let mut proto = String::from_str("Unknown(");
                    let d = dec_u64(h.protocol as u64);
                    proto.append(d.as_str());
                    proto.append(")");
                    let det = unknown_detail(h.payload.len());
                    (src, dst, proto, det)
                }
            },
        }
    }

    #[verifier::rlimit(100)]
    fn tcp_branch(&self, src: &String, dst: &String, seg: &Vec<u8>) -> (r: (String, String))
        ensures
            ({
                let b = spec_tcp_branch(src@, dst@, seg@);
                &&& r.0@ == b.0
                &&& r.1@ == b.1
            }),
    {
        match self.tcp_processor.process(seg.as_slice()) {
            None => {
                (String::from_str("Unknown"), unknown_detail(seg.len()))
            },
            Some(t) => {
                let tls_port = t.source == 443 || t.destination == 443 || t.source == 465
                    || t.destination == 465 || t.source == 993 || t.destination == 993
                    || t.source == 995 || t.destination == 995;
                if tls_port {
                    match self.tls_processor.process(t.payload.as_slice()) {
                        Ok(tls) => {
                            let mut det = String::from_str(tls.get_version());
                            det.append(" - ");
                            let fi = tls.format_info();
                            det.append(fi.as_str());
                            proof {
                                assert(det@ =~= spec_tls_details(t.payload@));
                            }
                            (String::from_str("TLS"), det)
                        },
                        Err(_) => {
                            let det = TcpProcessor::format_tcp_info(
                                src.as_str(),
                                dst.as_str(),
                                &t,
                            );
                            (String::from_str("TCP"), det)
                        },
                    }
                } else if t.source == 445 || t.destination == 445 {
                    match self.smb_processor.process(t.payload.as_slice()) {
                        Ok(smb) => {
                            let mut det = String::from_str("SMB Packet - Command: ");
                            let c = self.smb_processor.get_command(&smb);
                            det.append(c.as_str());
                            (String::from_str("SMB"), det)
                        },
                        Err(_) => {
                            let det = TcpProcessor::format_tcp_info(
                                src.as_str(),
                                dst.as_str(),
                                &t,
                            );
                            (String::from_str("TCP"), det)
                        },
                    }
                } else if t.source == 80 || t.destination == 80 {
                    match self.http_processor.process(t.payload.as_slice()) {
                        Ok(hp) => {
                            let mut det = hp.get_method();
                            det.append(" ");
                            let pth = hp.get_path();
                            det.append(pth.as_str());
                            det.append(" ");
                            let hst = hp.get_host();
                            det.append(hst.as_str());
                            proof {
                                reveal_strlit(" ");
                                reveal_strlit("Response");
                                reveal_strlit("Server");
                                reveal_strlit("Response ");
                                reveal_strlit(" Server");
                                assert(det@ =~= spec_http_details(t.payload@));
                            }
                            (String::from_str("HTTP"), det)
                        },
                        Err(_) => {
                            let det = TcpProcessor::format_tcp_info(
                                src.as_str(),
                                dst.as_str(),
                                &t,
                            );
                            (String::from_str("TCP"), det)
                        },
                    }
                } else if t.source == 21 || t.destination == 21 {
                    match self.ftp_processor.process(t.payload.as_slice()) {
                        Ok(fp) => {
                            let det = fp.get_command();
                            (String::from_str("FTP"), det)
                        },
                        Err(_) => {
                            let det = TcpProcessor::format_tcp_info(
                                src.as_str(),
                                dst.as_str(),
                                &t,
                            );
                            (String::from_str("TCP"), det)
                        },
                    }
                } else {
                    let det = TcpProcessor::format_tcp_info(src.as_str(), dst.as_str(), &t);
                    (String::from_str("TCP"), det)
                }
            },
        }
    }

    fn udp_branch(&self, src: &String, dst: &String, seg: &Vec<u8>) -> (r: (String, String))
        ensures
            ({
                let b = spec_udp_branch(src@, dst@, seg@);
                &&& r.0@ == b.0
                &&& r.1@ == b.1
            }),
    {
        match self.udp_processor.process(seg.as_slice()) {
            None => {
                (String::from_str("Unknown"), unknown_detail(seg.len()))
            },
            Some(u) => {
                if u.source == 53 || u.destination == 53 {
                    match self.dns_processor.process(u.payload.as_slice()) {
                        Ok(d) => {
                            let det = self.dns_processor.get_query_info(&d);
                            proof {
                                lemma_dns_details(u.payload@, d);
                            }
                            (String::from_str("DNS"), det)
                        },
                        Err(_) => {
                            let det = self.udp_summary(src, dst, &u, seg.len());
                            (String::from_str("UDP"), det)
                        },
                    }
                } else if u.source == 67 || u.destination == 67 || u.source == 68
                    || u.destination == 68 {
                    match self.dhcp_processor.process(u.payload.as_slice()) {
                        Ok(d) => {
                            let mut det = String::from_str("DHCP ");
                            let t = d.get_message_type();
                            det.append(t.as_str());
                            det.append(", client ");
                            let ci = d.get_client_ip();
                            det.append(ci.as_str());
                            det.append(", server ");
                            let si = d.get_server_ip();
                            det.append(si.as_str());
                            (String::from_str("DHCP"), det)
                        },
                        Err(_) => {
                            let det = self.udp_summary(src, dst, &u, seg.len());
                            (String::from_str("UDP"), det)
                        },
                    }
                } else {
                    let det = self.udp_summary(src, dst, &u, seg.len());
                    (String::from_str("UDP"), det)
                }
            },
        }
    }

    fn udp_summary(
        &self,
        src: &String,
        dst: &String,
        u: &crate::packets::udp::UdpDatagram,
        seg_len: usize,
    ) -> (s: String)
        ensures
            s@ == src@ + seq![':'] + spec_dec(u.source as nat) + " > "@ + dst@ + seq![':']
                + spec_dec(u.destination as nat) + " UDP, length "@ + spec_dec(seg_len as nat),
    {
        proof {
            reveal_strlit(":");
        }
        let mut s = src.clone();
        s.append(":");
        let sp = dec_u64(u.source as u64);
        s.append(sp.as_str());
        s.append(" > ");
        s.append(dst.as_str());
        s.append(":");
        let dp = dec_u64(u.destination as u64);
        s.append(dp.as_str());
        s.append(" UDP, length ");
        let l = dec_usize(seg_len);
        s.append(l.as_str());
        proof {
            assert(s@ =~= src@ + seq![':'] + spec_dec(u.source as nat) + " > "@ + dst@
                + seq![':'] + spec_dec(u.destination as nat) + " UDP, length "@ + spec_dec(
                seg_len as nat,
            ));
        }
        s
    }

    fn classify_ipv6(&self, payload: &Vec<u8>) -> (r: (String, String, String, String))
        ensures
            ({
                let c = spec_classify_ipv6(payload@);
                &&& r.0@ == c.source
                &&& r.1@ == c.destination
                &&& r.2@ == c.protocol
                &&& r.3@ == c.details
            }),
    {
        match self.ipv6_processor.process(payload.as_slice()) {
            None => {
                (
                    String::from_str("Unknown"),
                    String::from_str("Unknown"),
                    String::from_str("Unknown"),
                    unknown_detail(payload.len()),
                )
            },
            Some(h) => {
                let src = ipv6_string(&h.source);
                let dst = ipv6_string(&h.destination);
                if h.next_header == 6 {
                    match self.tcp_processor.process(h.payload.as_slice()) {
                        Some(t) => {
                            let mut det = String::from_str("Flags [");
                            let f = dec_u64(t.flags as u64);
                            det.append(f.as_str());
                            det.append("], seq ");
                            let sq = dec_u64(t.sequence as u64);
                            det.append(sq.as_str());
                            det.append(", ack ");
                            let ak = dec_u64(t.acknowledgement as u64);
                            det.append(ak.as_str());
                            det.append(", win ");
                            let wn = dec_u64(t.window as u64);
                            det.append(wn.as_str());
                            det.append(", length ");
                            let l = dec_usize(h.payload.len());
                            det.append(l.as_str());
                            (src, dst, String::from_str("TCP"), det)
                        },
                        None => {
                            let det = unknown_detail(h.payload.len());
                            (src, dst, String::from_str("Unknown"), det)
                        },
                    }
                } else if h.next_header == 17 {
                    match self.udp_processor.process(h.payload.as_slice()) {
                        Some(_) => {
                            let mut det = String::from_str("UDP, length ");
                            let l = dec_usize(h.payload.len());
                            det.append(l.as_str());
                            (src, dst, String::from_str("UDP"), det)
                        },
                        None => {
                            let det = unknown_detail(h.payload.len());
                            (src, dst, String::from_str("Unknown"), det)
                        },
                    }
                } else if h.next_header == 58 {
                    match self.icmpv6_processor.process(h.payload.as_slice()) {
                        Some(_) => {
                            let mut det = src.clone();
                            det.append(" > ");
                            det.append(dst.as_str());
                            det.append(": ICMPv6, length ");
                            let l = dec_usize(h.payload.len());
                            det.append(l.as_str());
                            (src, dst, String::from_str("ICMPv6"), det)
                        },
                        None => {
                            let det = unknown_detail(h.payload.len());
                            (src, dst, String::from_str("Unknown"), det)
                        },
                    }
                } else {
                    let mut proto = String::from_str("Unknown(");
                    let d = dec_u64(h.next_header as u64);
                    proto.append(d.as_str());
                    proto.append(")");
                    let mut det = src.clone();
                    det.append(" > ");
                    det.append(dst.as_str());
                    det.append(": Unknown protocol");
                    (src, dst, proto, det)
                }
            },
        }
    }

    /// Renders a record as one plain line: timestamp, endpoints,
    /// protocol, length, details.
    pub fn format_packet_info(&self, info: &PacketInfo) -> (s: String)
        ensures
            s@ == info.timestamp@ + seq![' '] + info.source_ip@ + " -> "@ + info.destination_ip@
                + seq![' '] + info.protocol@ + seq![' '] + spec_dec(info.length as nat)
                + seq![' '] + info.details@,
    {
        proof {
            reveal_strlit(" ");
        }
        let mut s = info.timestamp.clone();
        s.append(" ");
        s.append(info.source_ip.as_str());
        s.append(" -> ");
        s.append(info.destination_ip.as_str());
        s.append(" ");
        s.append(info.protocol.as_str());
        s.append(" ");
        let l = dec_usize(info.length);
        s.append(l.as_str());
        s.append(" ");
        s.append(info.details.as_str());
        proof {
            assert(s@ =~= info.timestamp@ + seq![' '] + info.source_ip@ + " -> "@
                + info.destination_ip@ + seq![' '] + info.protocol@ + seq![' '] + spec_dec(
                info.length as nat,
            ) + seq![' '] + info.details@);
        }
        s
    }
}

proof fn lemma_dns_details(p: Seq<u8>, d: crate::packets::dns::DnsPacket)
    requires
        spec_dns_ok(p),
        d.id == be16(p, 0),
        d.is_query == (p[2] < 128),
        d.response_code == p[3] % 16,
        Some(d.questions.deep_view()) == match spec_questions(p, 12, be16(p, 4) as nat) {
            Some((qs, _)) => Some(qs),
            None => None::<Seq<crate::packets::dns::DnsQuestionModel>>,
        },
        Some(d.answers.deep_view()) == match spec_questions(p, 12, be16(p, 4) as nat) {
            Some((_, qend)) => match spec_answers(p, qend, be16(p, 6) as nat) {
                Some((ans, _)) => Some(ans),
                None => None::<Seq<crate::packets::dns::DnsAnswerModel>>,
            },
            None => None::<Seq<crate::packets::dns::DnsAnswerModel>>,
        },
        Some(d.nameservers.deep_view()) == match spec_questions(p, 12, be16(p, 4) as nat) {
            Some((_, qend)) => match spec_answers(p, qend, be16(p, 6) as nat) {
                Some((_, aend)) => match spec_answers(p, aend, be16(p, 8) as nat) {
                    Some((ns, _)) => Some(ns),
                    None => None::<Seq<crate::packets::dns::DnsAnswerModel>>,
                },
                None => None::<Seq<crate::packets::dns::DnsAnswerModel>>,
            },
            None => None::<Seq<crate::packets::dns::DnsAnswerModel>>,
        },
    ensures
        spec_query_info(
            d.id,
            d.is_query,
            d.response_code,
            d.questions.deep_view(),
            d.answers.deep_view(),
            d.nameservers.deep_view(),
        ) == spec_dns_details(p),
{
}

} // verus!
