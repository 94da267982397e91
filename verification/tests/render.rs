use anansi_core::{format_interface_list, format_mac, NetworkInterface};

#[test]
fn all_zero_hardware_address_reads_broadcast() {
    assert_eq!(format_mac(&[0, 0, 0, 0, 0, 0]), "Broadcast");
}

#[test]
fn hardware_address_is_colon_separated_hex() {
    assert_eq!(format_mac(&[0x00, 0x1a, 0x2b, 0x3c, 0x4d, 0x5e]), "00:1a:2b:3c:4d:5e");
}

#[test]
fn interface_list_has_heading_and_one_line_each() {
    let interfaces = vec![
        NetworkInterface { name: "lo".to_string(), description: None },
        NetworkInterface {
            name: "eth0".to_string(),
            description: Some("wired".to_string()),
        },
    ];
    assert_eq!(
        format_interface_list(&interfaces),
        "Available interfaces:\nlo\neth0 -> wired\n"
    );
}

#[test]
fn empty_interface_list_is_heading_only() {
    assert_eq!(format_interface_list(&[]), "Available interfaces:\n");
}
