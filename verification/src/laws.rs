//! Laws of the dissector engine, stated over the classification model
//! that `process_packet` is proved to compute. Each law holds for every
//! frame meeting its premises, not merely for chosen examples.

use vstd::prelude::*;
use crate::wire::{be16, be32};
use crate::packets::{spec_classify, spec_is_tls_port, spec_tls_ok};
use crate::packets::arp::spec_ipv4_seq;
use crate::packets::dns::spec_dns_ok;
use vstd::utf8::valid_utf8;
use crate::packets::http::{spec_http_request_shape, spec_http_response_shape};
use crate::packets::ipv4::spec_ipv4_payload;
use crate::packets::smb::spec_smb_signature_ok;
use crate::packets::tcp::{spec_tcp_payload, spec_tcp_options, spec_tcp_info};

verus! {

/// Any frame carrying Ethernet, IPv4 and a complete TCP header, on ports
/// that name no application protocol, is reported as `TCP`, with the
/// endpoints rendered from the IPv4 addresses and a detail line that
/// reproduces the segment's exact ports, flags, sequence numbers, window
/// and payload length. The port exclusions are forced by the
/// application-dissection priority: on an application port the frame is
/// classified at that application's label instead.
pub proof fn lemma_tcp_classification(data: Seq<u8>)
    requires
        data.len() >= 14,
        be16(data, 12) == 0x0800,
        data.skip(14).len() >= 20,
        data.skip(14)[9] == 6,
        spec_ipv4_payload(data.skip(14)).len() >= 20,
        ({
            let seg = spec_ipv4_payload(data.skip(14));
            &&& !spec_is_tls_port(be16(seg, 0), be16(seg, 2))
            &&& be16(seg, 0) != 445 && be16(seg, 2) != 445
            &&& be16(seg, 0) != 80 && be16(seg, 2) != 80
            &&& be16(seg, 0) != 21 && be16(seg, 2) != 21
        }),
    ensures
        ({
            let ip = data.skip(14);
            let seg = spec_ipv4_payload(ip);
            let c = spec_classify(data);
            &&& c.protocol == "TCP"@
            &&& c.source == spec_ipv4_seq(ip.subrange(12, 16))
            &&& c.destination == spec_ipv4_seq(ip.subrange(16, 20))
            &&& c.details == spec_tcp_info(
                c.source,
                c.destination,
                be16(seg, 0),
                be16(seg, 2),
                seg[13],
                be32(seg, 4),
                be32(seg, 8),
                be16(seg, 14),
                spec_tcp_payload(seg).len(),
                spec_tcp_options(seg),
            )
        }),
{
}

/// Any frame whose ethertype is none of IPv4, IPv6 and ARP — and any
/// frame too short for an Ethernet header — is reported as `Unknown`,
/// and classification is total: no input raises an error.
pub proof fn lemma_unknown_ethertype(data: Seq<u8>)
    requires
        data.len() < 14 || (be16(data, 12) != 0x0800 && be16(data, 12) != 0x86DD && be16(
            data,
            12,
        ) != 0x0806),
    ensures
        spec_classify(data).protocol == "Unknown"@,
{
}

/// A TCP segment on a TLS port whose payload parses as a TLS record is
/// classified at the application label `TLS`, not at the transport label.
pub proof fn lemma_tls_classification(data: Seq<u8>)
    requires
        data.len() >= 14,
        be16(data, 12) == 0x0800,
        data.skip(14).len() >= 20,
        data.skip(14)[9] == 6,
        spec_ipv4_payload(data.skip(14)).len() >= 20,
        spec_is_tls_port(
            be16(spec_ipv4_payload(data.skip(14)), 0),
            be16(spec_ipv4_payload(data.skip(14)), 2),
        ),
        spec_tls_ok(spec_tcp_payload(spec_ipv4_payload(data.skip(14)))),
    ensures
        spec_classify(data).protocol == "TLS"@,
{
}

/// A TCP segment on the SMB port whose payload opens with the SMB
/// signature is classified as `SMB`.
pub proof fn lemma_smb_classification(data: Seq<u8>)
    requires
        data.len() >= 14,
        be16(data, 12) == 0x0800,
        data.skip(14).len() >= 20,
        data.skip(14)[9] == 6,
        spec_ipv4_payload(data.skip(14)).len() >= 20,
        !spec_is_tls_port(
            be16(spec_ipv4_payload(data.skip(14)), 0),
            be16(spec_ipv4_payload(data.skip(14)), 2),
        ),
        be16(spec_ipv4_payload(data.skip(14)), 0) == 445 || be16(
            spec_ipv4_payload(data.skip(14)),
            2,
        ) == 445,
        spec_tcp_payload(spec_ipv4_payload(data.skip(14))).len() >= 32,
        spec_smb_signature_ok(spec_tcp_payload(spec_ipv4_payload(data.skip(14)))),
    ensures
        spec_classify(data).protocol == "SMB"@,
{
}

/// A TCP segment on the HTTP port whose payload opens with a well-formed
/// request or status line is classified as `HTTP`.
pub proof fn lemma_http_classification(data: Seq<u8>)
    requires
        data.len() >= 14,
        be16(data, 12) == 0x0800,
        data.skip(14).len() >= 20,
        data.skip(14)[9] == 6,
        spec_ipv4_payload(data.skip(14)).len() >= 20,
        !spec_is_tls_port(
            be16(spec_ipv4_payload(data.skip(14)), 0),
            be16(spec_ipv4_payload(data.skip(14)), 2),
        ),
        be16(spec_ipv4_payload(data.skip(14)), 0) != 445,
        be16(spec_ipv4_payload(data.skip(14)), 2) != 445,
        be16(spec_ipv4_payload(data.skip(14)), 0) == 80 || be16(
            spec_ipv4_payload(data.skip(14)),
            2,
        ) == 80,
        spec_http_request_shape(spec_tcp_payload(spec_ipv4_payload(data.skip(14))))
            || spec_http_response_shape(spec_tcp_payload(spec_ipv4_payload(data.skip(14)))),
    ensures
        spec_classify(data).protocol == "HTTP"@,
{
}

/// A TCP segment on the FTP port whose payload is a UTF-8 line is
/// classified as `FTP`. The earlier application ports are excluded
/// because their attempts take priority.
pub proof fn lemma_ftp_classification(data: Seq<u8>)
    requires
        data.len() >= 14,
        be16(data, 12) == 0x0800,
        data.skip(14).len() >= 20,
        data.skip(14)[9] == 6,
        spec_ipv4_payload(data.skip(14)).len() >= 20,
        !spec_is_tls_port(
            be16(spec_ipv4_payload(data.skip(14)), 0),
            be16(spec_ipv4_payload(data.skip(14)), 2),
        ),
        be16(spec_ipv4_payload(data.skip(14)), 0) != 445,
        be16(spec_ipv4_payload(data.skip(14)), 2) != 445,
        be16(spec_ipv4_payload(data.skip(14)), 0) != 80,
        be16(spec_ipv4_payload(data.skip(14)), 2) != 80,
        be16(spec_ipv4_payload(data.skip(14)), 0) == 21 || be16(
            spec_ipv4_payload(data.skip(14)),
            2,
        ) == 21,
        valid_utf8(spec_tcp_payload(spec_ipv4_payload(data.skip(14)))),
    ensures
        spec_classify(data).protocol == "FTP"@,
{
}

/// A UDP datagram on the DNS port whose payload parses as a DNS message
/// is classified as `DNS`.
pub proof fn lemma_dns_classification(data: Seq<u8>)
    requires
        data.len() >= 14,
        be16(data, 12) == 0x0800,
        data.skip(14).len() >= 20,
        data.skip(14)[9] == 17,
        spec_ipv4_payload(data.skip(14)).len() >= 8,
        be16(spec_ipv4_payload(data.skip(14)), 0) == 53 || be16(
            spec_ipv4_payload(data.skip(14)),
            2,
        ) == 53,
        spec_dns_ok(spec_ipv4_payload(data.skip(14)).skip(8)),
    ensures
        spec_classify(data).protocol == "DNS"@,
{
}

/// A UDP datagram on a DHCP port whose payload holds the fixed DHCP
/// region is classified as `DHCP`. The DNS port is excluded because the
/// DNS attempt takes priority on it.
pub proof fn lemma_dhcp_classification(data: Seq<u8>)
    requires
        data.len() >= 14,
        be16(data, 12) == 0x0800,
        data.skip(14).len() >= 20,
        data.skip(14)[9] == 17,
        spec_ipv4_payload(data.skip(14)).len() >= 8,
        be16(spec_ipv4_payload(data.skip(14)), 0) != 53,
        be16(spec_ipv4_payload(data.skip(14)), 2) != 53,
        be16(spec_ipv4_payload(data.skip(14)), 0) == 67 || be16(
            spec_ipv4_payload(data.skip(14)),
            2,
        ) == 67 || be16(spec_ipv4_payload(data.skip(14)), 0) == 68 || be16(
            spec_ipv4_payload(data.skip(14)),
            2,
        ) == 68,
        spec_ipv4_payload(data.skip(14)).skip(8).len() >= 240,
    ensures
        spec_classify(data).protocol == "DHCP"@,
{
}

} // verus!
