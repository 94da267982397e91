use anansi_core::{PacketProcessor, RawFrame};

fn frame(data: Vec<u8>) -> RawFrame {
    RawFrame { data, ts_sec: 0, ts_usec: 0, orig_len: 0 }
}

fn eth_header(ethertype: u16) -> Vec<u8> {
    let mut v = vec![0x00, 0x11, 0x22, 0x33, 0x44, 0x55, 0x66, 0x77, 0x88, 0x99, 0xaa, 0xbb];
    v.push((ethertype >> 8) as u8);
    v.push((ethertype & 0xff) as u8);
    v
}

fn ipv4_header(src: [u8; 4], dst: [u8; 4], protocol: u8, payload_len: usize) -> Vec<u8> {
    let total = 20 + payload_len as u16;
    let mut v = vec![0x45, 0x00];
    v.push((total >> 8) as u8);
    v.push((total & 0xff) as u8);
    v.extend_from_slice(&[0x00, 0x00, 0x00, 0x00, 0x40]);
    v.push(protocol);
    v.extend_from_slice(&[0x00, 0x00]);
    v.extend_from_slice(&src);
    v.extend_from_slice(&dst);
    v
}

fn tcp_header(sport: u16, dport: u16, seq: u32, ack: u32, flags: u8, win: u16) -> Vec<u8> {
    let mut v = Vec::new();
    v.push((sport >> 8) as u8);
    v.push((sport & 0xff) as u8);
    v.push((dport >> 8) as u8);
    v.push((dport & 0xff) as u8);
    v.extend_from_slice(&seq.to_be_bytes());
    v.extend_from_slice(&ack.to_be_bytes());
    v.push(0x50);
    v.push(flags);
    v.push((win >> 8) as u8);
    v.push((win & 0xff) as u8);
    v.extend_from_slice(&[0x00, 0x00, 0x00, 0x00]);
    v
}

fn udp_header(sport: u16, dport: u16, payload_len: usize) -> Vec<u8> {
    let len = 8 + payload_len as u16;
    let mut v = Vec::new();
    v.push((sport >> 8) as u8);
    v.push((sport & 0xff) as u8);
    v.push((dport >> 8) as u8);
    v.push((dport & 0xff) as u8);
    v.push((len >> 8) as u8);
    v.push((len & 0xff) as u8);
    v.extend_from_slice(&[0x00, 0x00]);
    v
}

fn tcp_frame(sport: u16, dport: u16, flags: u8, payload: &[u8]) -> Vec<u8> {
    let mut tcp = tcp_header(sport, dport, 0, 0, flags, 0);
    tcp.extend_from_slice(payload);
    let mut v = eth_header(0x0800);
    v.extend_from_slice(&ipv4_header([10, 0, 0, 1], [10, 0, 0, 2], 6, tcp.len()));
    v.extend_from_slice(&tcp);
    v
}

fn udp_frame(sport: u16, dport: u16, payload: &[u8]) -> Vec<u8> {
    let mut udp = udp_header(sport, dport, payload.len());
    udp.extend_from_slice(payload);
    let mut v = eth_header(0x0800);
    v.extend_from_slice(&ipv4_header([10, 0, 0, 1], [10, 0, 0, 2], 17, udp.len()));
    v.extend_from_slice(&udp);
    v
}

#[test]
fn syn_frame_reports_tcp_with_endpoints_and_flag() {
    let p = PacketProcessor::new(false);
    let data = tcp_frame(12345, 80, 0x02, b"");
    assert_eq!(data.len(), 54);
    let info = p.process_packet(&frame(data));
    assert_eq!(info.protocol, "TCP");
    assert!(info.details.contains("10.0.0.1"));
    assert!(info.details.contains("12345"));
    assert!(info.details.contains("10.0.0.2"));
    assert!(info.details.contains("80"));
    assert!(info.details.contains("[S]"));
    assert_eq!(info.source_ip, "10.0.0.1");
    assert_eq!(info.destination_ip, "10.0.0.2");
    assert_eq!(info.length, 54);
}

#[test]
fn tcp_detail_line_is_exact() {
    let p = PacketProcessor::new(false);
    let mut tcp = tcp_header(1000, 2000, 7, 9, 0x12, 512);
    tcp.extend_from_slice(b"abc");
    let mut data = eth_header(0x0800);
    data.extend_from_slice(&ipv4_header([192, 168, 0, 1], [192, 168, 0, 9], 6, tcp.len()));
    data.extend_from_slice(&tcp);
    let info = p.process_packet(&frame(data));
    assert_eq!(info.protocol, "TCP");
    assert_eq!(
        info.details,
        "192.168.0.1:1000 -> 192.168.0.9:2000 [SA] Seq=7 Ack=9 Win=512 Len=3 TSval=0 TSecr=0"
    );
}

#[test]
fn tcp_timestamp_option_is_reported() {
    let p = PacketProcessor::new(false);
    let mut tcp = Vec::new();
    tcp.extend_from_slice(&[0x03, 0xe8, 0x07, 0xd0]); // 1000 -> 2000
    tcp.extend_from_slice(&0u32.to_be_bytes());
    tcp.extend_from_slice(&0u32.to_be_bytes());
    tcp.push(0x80); // data offset 8: 12 option bytes
    tcp.push(0x10); // ACK
    tcp.extend_from_slice(&[0x00, 0x20, 0x00, 0x00, 0x00, 0x00]);
    tcp.extend_from_slice(&[1, 1]); // NOP NOP
    tcp.push(8); // timestamp option
    tcp.push(10);
    tcp.extend_from_slice(&123456u32.to_be_bytes());
    tcp.extend_from_slice(&654321u32.to_be_bytes());
    let mut data = eth_header(0x0800);
    data.extend_from_slice(&ipv4_header([1, 2, 3, 4], [5, 6, 7, 8], 6, tcp.len()));
    data.extend_from_slice(&tcp);
    let info = p.process_packet(&frame(data));
    assert_eq!(info.protocol, "TCP");
    assert!(info.details.contains("TSval=123456"));
    assert!(info.details.contains("TSecr=654321"));
}

#[test]
fn unknown_ethertype_reports_unknown() {
    let p = PacketProcessor::new(false);
    let mut data = eth_header(0x1234);
    data.extend_from_slice(&[0u8; 40]);
    let info = p.process_packet(&frame(data));
    assert_eq!(info.protocol, "Unknown");
    assert_eq!(info.source_ip, "Unknown");
    assert_eq!(info.destination_ip, "Unknown");
}

#[test]
fn truncated_frame_reports_unknown() {
    let p = PacketProcessor::new(false);
    let info = p.process_packet(&frame(vec![0x01, 0x02, 0x03]));
    assert_eq!(info.protocol, "Unknown");
    assert_eq!(info.length, 3);
}

#[test]
fn http_request_classifies_at_application_label() {
    let p = PacketProcessor::new(false);
    let payload = b"GET /index.html HTTP/1.1\r\nHost: example.com\r\n\r\n";
    let data = tcp_frame(40000, 80, 0x18, payload);
    let info = p.process_packet(&frame(data));
    assert_eq!(info.protocol, "HTTP");
    assert_eq!(info.details, "GET /index.html example.com");
}

#[test]
fn http_response_classifies_at_application_label() {
    let p = PacketProcessor::new(false);
    let payload = b"HTTP/1.1 200 OK\r\nContent-Length: 0\r\n\r\n";
    let data = tcp_frame(80, 40000, 0x18, payload);
    let info = p.process_packet(&frame(data));
    assert_eq!(info.protocol, "HTTP");
    assert_eq!(info.details, "Response 200 Server");
}

#[test]
fn tls_client_hello_classifies_at_application_label() {
    let p = PacketProcessor::new(false);
    let payload = [0x16u8, 0x03, 0x01, 0x00, 0x01, 0x01];
    let data = tcp_frame(40000, 443, 0x18, &payload);
    let info = p.process_packet(&frame(data));
    assert_eq!(info.protocol, "TLS");
    assert_eq!(info.details, "TLS 1.0 - TLS 1.0 Client Hello");
}

#[test]
fn smb_close_classifies_at_application_label() {
    let p = PacketProcessor::new(false);
    let mut payload = vec![0xFFu8, b'S', b'M', b'B', 0x04];
    payload.extend_from_slice(&[0u8; 27]);
    let data = tcp_frame(40000, 445, 0x18, &payload);
    let info = p.process_packet(&frame(data));
    assert_eq!(info.protocol, "SMB");
    assert_eq!(info.details, "SMB Packet - Command: SMB_COM_CLOSE");
}

#[test]
fn ftp_command_classifies_at_application_label() {
    let p = PacketProcessor::new(false);
    let data = tcp_frame(40000, 21, 0x18, b"USER anonymous\r\n");
    let info = p.process_packet(&frame(data));
    assert_eq!(info.protocol, "FTP");
    assert_eq!(info.details, "USER anonymous");
}

#[test]
fn ftp_response_joins_code_and_message() {
    let p = PacketProcessor::new(false);
    let data = tcp_frame(21, 40000, 0x18, b"220 Service ready\r\n");
    let info = p.process_packet(&frame(data));
    assert_eq!(info.protocol, "FTP");
    assert_eq!(info.details, "220 Service ready");
}

#[test]
fn dns_query_classifies_at_application_label() {
    let p = PacketProcessor::new(false);
    let mut payload = vec![0x12u8, 0x34, 0x01, 0x00, 0x00, 0x01, 0x00, 0x00, 0x00, 0x00, 0x00,
        0x00];
    payload.push(7);
    payload.extend_from_slice(b"example");
    payload.push(3);
    payload.extend_from_slice(b"com");
    payload.push(0);
    payload.extend_from_slice(&[0x00, 0x01, 0x00, 0x01]);
    let data = udp_frame(40000, 53, &payload);
    let info = p.process_packet(&frame(data));
    assert_eq!(info.protocol, "DNS");
    assert_eq!(info.details, "Standard query 0x1234 example.com A");
}

#[test]
fn dns_response_lists_answers() {
    let p = PacketProcessor::new(false);
    let mut payload = vec![0xabu8, 0xcd, 0x81, 0x80, 0x00, 0x01, 0x00, 0x01, 0x00, 0x00, 0x00,
        0x00];
    payload.push(1);
    payload.push(b'a');
    payload.push(0);
    payload.extend_from_slice(&[0x00, 0x01, 0x00, 0x01]);
    // answer: pointer name, type A, class IN, ttl, rdlength 4, 1.2.3.4
    payload.extend_from_slice(&[0xc0, 0x0c]);
    payload.extend_from_slice(&[0x00, 0x01, 0x00, 0x01, 0x00, 0x00, 0x00, 0x3c, 0x00, 0x04]);
    payload.extend_from_slice(&[1, 2, 3, 4]);
    let data = udp_frame(53, 40000, &payload);
    let info = p.process_packet(&frame(data));
    assert_eq!(info.protocol, "DNS");
    assert_eq!(info.details, "Standard query response 0xabcd a A A 1.2.3.4 ");
}

#[test]
fn malformed_dns_falls_back_to_udp_summary() {
    let p = PacketProcessor::new(false);
    let data = udp_frame(53, 3333, b"short");
    let info = p.process_packet(&frame(data));
    assert_eq!(info.protocol, "UDP");
    assert_eq!(info.details, "10.0.0.1:53 > 10.0.0.2:3333 UDP, length 13");
}

#[test]
fn dhcp_discover_classifies_at_application_label() {
    let p = PacketProcessor::new(false);
    let mut payload = vec![0u8; 240];
    payload[0] = 1;
    payload[236] = 0x63;
    payload[237] = 0x82;
    payload[238] = 0x53;
    payload[239] = 0x63;
    payload.extend_from_slice(&[53, 1, 1, 0xff]);
    let data = udp_frame(68, 67, &payload);
    let info = p.process_packet(&frame(data));
    assert_eq!(info.protocol, "DHCP");
    assert_eq!(info.details, "DHCP DHCPDISCOVER, client 0.0.0.0, server 0.0.0.0");
}

#[test]
fn icmp_echo_request_is_summarized() {
    let p = PacketProcessor::new(false);
    // type 8, code 0, checksum, then a body whose bytes 4..8 carry id/seq
    let mut icmp = vec![8u8, 0, 0, 0];
    icmp.extend_from_slice(&[0, 0, 0, 0]);
    icmp.extend_from_slice(&[0x00, 0x07, 0x00, 0x09]);
    let mut data = eth_header(0x0800);
    data.extend_from_slice(&ipv4_header([10, 0, 0, 1], [10, 0, 0, 2], 1, icmp.len()));
    data.extend_from_slice(&icmp);
    let info = p.process_packet(&frame(data));
    assert_eq!(info.protocol, "ICMP");
    assert_eq!(info.details, "10.0.0.1 > 10.0.0.2: Echo Request (id=7, seq=9)");
}

#[test]
fn igmp_membership_query_is_summarized() {
    let p = PacketProcessor::new(false);
    let igmp = vec![0x11u8, 0x64, 0x00, 0x00, 224, 0, 0, 1];
    let mut data = eth_header(0x0800);
    data.extend_from_slice(&ipv4_header([10, 0, 0, 1], [224, 0, 0, 1], 2, igmp.len()));
    data.extend_from_slice(&igmp);
    let info = p.process_packet(&frame(data));
    assert_eq!(info.protocol, "IGMP");
    assert_eq!(info.details, "Membership Query, group 224.0.0.1");
}

#[test]
fn unknown_ipv4_protocol_is_numbered() {
    let p = PacketProcessor::new(false);
    let body = vec![0u8; 8];
    let mut data = eth_header(0x0800);
    data.extend_from_slice(&ipv4_header([10, 0, 0, 1], [10, 0, 0, 2], 99, body.len()));
    data.extend_from_slice(&body);
    let info = p.process_packet(&frame(data));
    assert_eq!(info.protocol, "Unknown(99)");
    assert_eq!(info.details, "Unknown protocol, length 8");
}

#[test]
fn ipv6_tcp_is_summarized() {
    let p = PacketProcessor::new(false);
    let tcp = tcp_header(1, 2, 5, 6, 0x02, 100);
    let mut ip6 = vec![0x60, 0, 0, 0];
    ip6.push(0);
    ip6.push(tcp.len() as u8);
    ip6.push(6); // next header TCP
    ip6.push(64);
    let mut src = [0u8; 16];
    src[15] = 1; // ::1
    let mut dst = [0u8; 16];
    dst[0] = 0x20;
    dst[1] = 0x01;
    dst[2] = 0x0d;
    dst[3] = 0xb8;
    dst[15] = 2;
    ip6.extend_from_slice(&src);
    ip6.extend_from_slice(&dst);
    ip6.extend_from_slice(&tcp);
    let mut data = eth_header(0x86DD);
    data.extend_from_slice(&ip6);
    let info = p.process_packet(&frame(data));
    assert_eq!(info.protocol, "TCP");
    assert_eq!(info.source_ip, "::1");
    assert_eq!(info.destination_ip, "2001:db8::2");
    assert_eq!(info.details, "Flags [2], seq 5, ack 6, win 100, length 20");
}

#[test]
fn arp_request_is_summarized() {
    let p = PacketProcessor::new(false);
    let mut arp = Vec::new();
    arp.extend_from_slice(&[0x00, 0x01, 0x08, 0x00, 6, 4, 0x00, 0x01]);
    arp.extend_from_slice(&[0xaa, 0xbb, 0xcc, 0xdd, 0xee, 0xff]);
    arp.extend_from_slice(&[192, 168, 1, 1]);
    arp.extend_from_slice(&[0, 0, 0, 0, 0, 0]);
    arp.extend_from_slice(&[192, 168, 1, 2]);
    let mut data = eth_header(0x0806);
    data.extend_from_slice(&arp);
    let info = p.process_packet(&frame(data));
    assert_eq!(info.protocol, "ARP");
    assert_eq!(info.details, "Who has 192.168.1.2? Tell 192.168.1.1");
    assert_eq!(info.source_ip, "66:77:88:99:aa:bb");
    assert_eq!(info.destination_ip, "00:11:22:33:44:55");
}

#[test]
fn arp_reply_renders_sender_hardware_address() {
    let p = PacketProcessor::new(false);
    let mut arp = Vec::new();
    arp.extend_from_slice(&[0x00, 0x01, 0x08, 0x00, 6, 4, 0x00, 0x02]);
    arp.extend_from_slice(&[0xaa, 0xbb, 0xcc, 0xdd, 0xee, 0xff]);
    arp.extend_from_slice(&[192, 168, 1, 2]);
    arp.extend_from_slice(&[0x11, 0x22, 0x33, 0x44, 0x55, 0x66]);
    arp.extend_from_slice(&[192, 168, 1, 1]);
    let mut data = eth_header(0x0806);
    data.extend_from_slice(&arp);
    let info = p.process_packet(&frame(data));
    assert_eq!(info.details, "192.168.1.2 is at aa:bb:cc:dd:ee:ff");
}

#[test]
fn timestamp_is_rendered_from_capture_time() {
    let p = PacketProcessor::new(false);
    let mut f = frame(vec![]);
    f.ts_sec = 3661;
    f.ts_usec = 500_000;
    let info = p.process_packet(&f);
    assert_eq!(info.timestamp, "01:01:01.500");
}

#[test]
fn identical_bytes_yield_identical_records() {
    let p = PacketProcessor::new(false);
    let data = tcp_frame(12345, 80, 0x02, b"");
    let a = p.process_packet(&frame(data.clone()));
    let b = p.process_packet(&frame(data));
    assert_eq!(a.protocol, b.protocol);
    assert_eq!(a.details, b.details);
    assert_eq!(a.source_ip, b.source_ip);
    assert_eq!(a.destination_ip, b.destination_ip);
}

#[test]
fn format_packet_info_is_one_plain_line() {
    let p = PacketProcessor::new(false);
    let data = tcp_frame(12345, 80, 0x02, b"");
    let info = p.process_packet(&frame(data));
    let line = p.format_packet_info(&info);
    assert_eq!(
        line,
        format!(
            "{} {} -> {} {} {} {}",
            info.timestamp, info.source_ip, info.destination_ip, info.protocol, info.length,
            info.details
        )
    );
}

#[test]
fn truncated_tls_falls_back_to_transport_label() {
    let p = PacketProcessor::new(false);
    // record declares 100 body bytes but carries none
    let payload = [0x16u8, 0x03, 0x03, 0x00, 0x64];
    let data = tcp_frame(40000, 443, 0x18, &payload);
    let info = p.process_packet(&frame(data));
    assert_eq!(info.protocol, "TCP");
}

#[test]
fn short_igmp_keeps_the_layer_label() {
    let p = PacketProcessor::new(false);
    let igmp = vec![0x11u8, 0x64, 0x00];
    let mut data = eth_header(0x0800);
    data.extend_from_slice(&ipv4_header([10, 0, 0, 1], [224, 0, 0, 1], 2, igmp.len()));
    data.extend_from_slice(&igmp);
    let info = p.process_packet(&frame(data));
    assert_eq!(info.protocol, "IGMP");
    assert_eq!(info.details, "Unknown IGMP packet, length 3");
}

#[test]
fn dhcp_with_truncated_option_reads_as_unknown_type() {
    let p = PacketProcessor::new(false);
    let mut payload = vec![0u8; 240];
    payload[0] = 1;
    // option code 53 with a declared length the buffer cannot hold
    payload.extend_from_slice(&[53, 10, 1]);
    let data = udp_frame(68, 67, &payload);
    let info = p.process_packet(&frame(data));
    assert_eq!(info.protocol, "DHCP");
    assert_eq!(info.details, "DHCP Unknown, client 0.0.0.0, server 0.0.0.0");
}

#[test]
fn dns_aaaa_answer_renders_mapped_address() {
    let p = PacketProcessor::new(false);
    let mut payload = vec![0x00u8, 0x01, 0x81, 0x80, 0x00, 0x00, 0x00, 0x01, 0x00, 0x00, 0x00,
        0x00];
    // answer: root name, type AAAA, class IN, ttl, rdlength 16
    payload.push(0);
    payload.extend_from_slice(&[0x00, 0x1c, 0x00, 0x01, 0x00, 0x00, 0x00, 0x3c, 0x00, 0x10]);
    payload.extend_from_slice(&[0, 0, 0, 0, 0, 0, 0, 0, 0, 0, 0xff, 0xff, 1, 2, 3, 4]);
    let data = udp_frame(53, 40000, &payload);
    let info = p.process_packet(&frame(data));
    assert_eq!(info.protocol, "DNS");
    assert_eq!(info.details, "Standard query response 0x0001  AAAA ::ffff:1.2.3.4 ");
}

#[test]
fn dns_error_code_is_reported() {
    let p = PacketProcessor::new(false);
    // response with RCODE 3 (no such name) and no question
    let payload = vec![0x00u8, 0x2a, 0x81, 0x83, 0x00, 0x00, 0x00, 0x00, 0x00, 0x00, 0x00,
        0x00];
    let data = udp_frame(53, 40000, &payload);
    let info = p.process_packet(&frame(data));
    assert_eq!(info.protocol, "DNS");
    assert_eq!(info.details, "Standard query response 0x002a RCode: NameError");
}

#[test]
fn ftp_line_with_non_ascii_text_is_still_ftp() {
    let p = PacketProcessor::new(false);
    // "RETR café\r\n" — valid UTF-8 with a two-byte character
    let mut payload = Vec::new();
    payload.extend_from_slice("RETR caf\u{e9}\r\n".as_bytes());
    let data = tcp_frame(40000, 21, 0x18, &payload);
    let info = p.process_packet(&frame(data));
    assert_eq!(info.protocol, "FTP");
    assert_eq!(info.details, "RETR caf\u{e9}");
}

#[test]
fn invalid_utf8_on_the_ftp_port_falls_back_to_tcp() {
    let p = PacketProcessor::new(false);
    let payload = [0x55u8, 0x53, 0x45, 0x52, 0xff, 0xfe];
    let data = tcp_frame(40000, 21, 0x18, &payload);
    let info = p.process_packet(&frame(data));
    assert_eq!(info.protocol, "TCP");
}

#[test]
fn dns_response_appends_authority_cname_records() {
    let p = PacketProcessor::new(false);
    // response: one question "a", no answers, one CNAME authority record
    let mut payload = vec![0x00u8, 0x42, 0x81, 0x80, 0x00, 0x01, 0x00, 0x00, 0x00, 0x01, 0x00,
        0x00];
    payload.push(1);
    payload.push(b'a');
    payload.push(0);
    payload.extend_from_slice(&[0x00, 0x01, 0x00, 0x01]);
    // authority: pointer name, type CNAME, class IN, ttl, rdlength 5,
    // target "www" then a pointer back to "a"
    payload.extend_from_slice(&[0xc0, 0x0c]);
    payload.extend_from_slice(&[0x00, 0x05, 0x00, 0x01, 0x00, 0x00, 0x00, 0x3c, 0x00, 0x05]);
    payload.push(3);
    payload.extend_from_slice(b"www");
    payload.extend_from_slice(&[0xc0, 0x0c]);
    let data = udp_frame(53, 40000, &payload);
    let info = p.process_packet(&frame(data));
    assert_eq!(info.protocol, "DNS");
    assert_eq!(info.details, "Standard query response 0x0042 a ACNAME www.a ");
}

#[test]
fn dns_cname_answer_follows_compression_pointers() {
    let p = PacketProcessor::new(false);
    // response: one question "ab", one CNAME answer whose target is
    // "www" followed by a pointer back to the question name
    let mut payload = vec![0x00u8, 0x07, 0x81, 0x80, 0x00, 0x01, 0x00, 0x01, 0x00, 0x00, 0x00,
        0x00];
    payload.push(2);
    payload.extend_from_slice(b"ab");
    payload.push(0);
    payload.extend_from_slice(&[0x00, 0x05, 0x00, 0x01]);
    payload.extend_from_slice(&[0xc0, 0x0c]);
    payload.extend_from_slice(&[0x00, 0x05, 0x00, 0x01, 0x00, 0x00, 0x00, 0x3c, 0x00, 0x06]);
    payload.push(3);
    payload.extend_from_slice(b"www");
    payload.extend_from_slice(&[0xc0, 0x0c]);
    let data = udp_frame(53, 40000, &payload);
    let info = p.process_packet(&frame(data));
    assert_eq!(info.protocol, "DNS");
    assert_eq!(info.details, "Standard query response 0x0007 ab CNAME CNAME www.ab ");
}
