use voidns::parse::{
    dns_server_candidates, keep_flagged, parse_default_route_iface, parse_dns_servers,
    parse_netsh_interfaces, parse_network_services,
};

// --- Linux ---

#[test]
fn linux_default_route_picks_zero_destination() {
    let table = "Iface\tDestination\tGateway\tFlags\tRefCnt\tUse\tMetric\tMask\nwlan0\t00000000\t0102A8C0\t0003\t0\t0\t600\t00000000\nwlan0\t0002A8C0\t00000000\t0001\t0\t0\t600\t00FFFFFF\ndocker0\t000011AC\t00000000\t0001\t0\t0\t0\t0000FFFF";
    assert_eq!(parse_default_route_iface(table).as_deref(), Some("wlan0"));
}

#[test]
fn linux_default_route_none_when_absent() {
    let table = "Iface\tDestination\tGateway\nlo\t0000007F\t00000000";
    assert_eq!(parse_default_route_iface(table), None);
}

#[test]
fn linux_default_route_skips_blank_rows() {
    let table = "Iface\tDestination\n\n  \nlo\t0000007F\neth0\t00000000";
    assert_eq!(parse_default_route_iface(table).as_deref(), Some("eth0"));
}

#[test]
fn linux_default_route_empty_table() {
    assert_eq!(parse_default_route_iface(""), None);
    assert_eq!(parse_default_route_iface("eth0\t00000000"), None);
}

#[test]
fn linux_default_route_crlf_lines() {
    let table = "Iface\tDestination\r\neth1\t00000000\r\n";
    assert_eq!(parse_default_route_iface(table).as_deref(), Some("eth1"));
}

// --- Windows ---

#[test]
fn windows_parses_connected_interfaces() {
    let out = "\n\nAdmin State    State          Type             Interface Name\n-------------------------------------------------------------------------\nEnabled        Connected      Dedicated        Ethernet\nEnabled        Connected      Dedicated        Wi-Fi\nEnabled        Disconnected   Dedicated        Ethernet 2";
    let got = parse_netsh_interfaces(out);
    assert_eq!(got, vec!["Ethernet".to_string(), "Wi-Fi".to_string()]);
}

#[test]
fn windows_interface_name_with_spaces() {
    let out = "Enabled        Connected      Dedicated        Local Area Connection 3";
    assert_eq!(parse_netsh_interfaces(out), vec!["Local Area Connection 3"]);
}

#[test]
fn windows_empty_when_none_connected() {
    let out = "Enabled        Disconnected   Dedicated        Ethernet";
    assert!(parse_netsh_interfaces(out).is_empty());
}

#[test]
fn windows_state_column_ignores_ascii_case() {
    let out = "Enabled CONNECTED Dedicated  Wi-Fi   Direct ";
    assert_eq!(parse_netsh_interfaces(out), vec!["Wi-Fi Direct"]);
}

// --- macOS ---

#[test]
fn macos_parses_services_skipping_header_and_star() {
    let out = "An asterisk (*) denotes that a network service is disabled.\nWi-Fi\n*Bluetooth PAN\nThunderbolt Bridge";
    let got = parse_network_services(out);
    assert_eq!(
        got,
        vec![
            "Wi-Fi".to_string(),
            "Bluetooth PAN".to_string(),
            "Thunderbolt Bridge".to_string()
        ]
    );
}

#[test]
fn macos_services_drop_blank_rows() {
    let out = "header\n  \n** USB LAN \n*\n";
    assert_eq!(parse_network_services(out), vec!["USB LAN"]);
}

#[test]
fn macos_dns_servers_listed() {
    let out = "1.1.1.1\n8.8.8.8";
    assert_eq!(parse_dns_servers(out), vec!["1.1.1.1", "8.8.8.8"]);
}

#[test]
fn macos_dns_servers_none() {
    let out = "There aren't any DNS Servers set on Wi-Fi.";
    assert!(parse_dns_servers(out).is_empty());
}

#[test]
fn macos_dns_servers_skip_non_addresses() {
    let out = " 2606:4700::1111 \nnot-an-ip\n9.9.9.9\n\n";
    assert_eq!(parse_dns_servers(out), vec!["2606:4700::1111", "9.9.9.9"]);
}

#[test]
fn macos_dns_candidates_and_flags() {
    let c = dns_server_candidates(" a \nb");
    assert_eq!(c, vec!["a", "b"]);
    assert_eq!(keep_flagged(c, &vec![false, true]), vec!["b"]);
}
