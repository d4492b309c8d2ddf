use voidns::doh::{
    default_extra_ca_path, windows_default_extra_ca_path, extra_ca_outcome, extra_ca_source, plan_with_bootstrap, trust_from_scan,
    upstream_name_servers,
    DohPreset, ExtraCaOutcome, UpstreamPlan, UpstreamPlanError,
};
use voidns::net::{ip_addr_text, socket_addr_text, IpAddress};
use voidns::proto::UpstreamSel;
use voidns::redirect::{
    libc_af_inet, libc_af_inet6, link_dns_entry, netsh_clear, netsh_set, resolv_conf_contents,
    restore_shell, set_dns_servers_args, state_dns_path, wide, LinuxActive, LinuxRedirector,
    LinuxRestore, MacosApplied, MacosRedirector, MacosRestore, RedirectError, WindowsRedirector,
};

fn strs(v: &[&str]) -> Vec<String> {
    v.iter().map(|s| s.to_string()).collect()
}

#[test]
fn address_text() {
    assert_eq!(ip_addr_text(&IpAddress::V4([127, 0, 0, 1])), "127.0.0.1");
    assert_eq!(ip_addr_text(&IpAddress::V4([10, 200, 0, 255])), "10.200.0.255");
    let mut v6 = [0u8; 16];
    v6[15] = 1;
    assert_eq!(ip_addr_text(&IpAddress::V6(v6)), "::1");
    assert_eq!(socket_addr_text(&IpAddress::V6(v6), 53), "[::1]:53");
    assert_eq!(socket_addr_text(&IpAddress::V4([127, 0, 0, 1]), 15353), "127.0.0.1:15353");
}

#[test]
fn linux_link_entry_and_resolv_conf() {
    assert_eq!(libc_af_inet(), 2);
    assert_eq!(libc_af_inet6(), 10);
    assert_eq!(link_dns_entry(&IpAddress::V4([127, 0, 0, 1])), (2, vec![127, 0, 0, 1]));
    let (fam, bytes) = link_dns_entry(&IpAddress::V6([0; 16]));
    assert_eq!((fam, bytes.len()), (10, 16));
    assert_eq!(
        resolv_conf_contents(&IpAddress::V4([127, 0, 0, 1])),
        "# voidns managed\nnameserver 127.0.0.1\n"
    );
}

#[test]
fn linux_restore_is_idempotent() {
    let mut r = LinuxRedirector::new();
    assert_eq!(r.restore(), LinuxRestore::Nothing);
    r.applied_via_resolved(3);
    assert_eq!(r.active, LinuxActive::Resolved { ifindex: 3 });
    assert_eq!(r.restore(), LinuxRestore::RevertLink { ifindex: 3 });
    assert_eq!(r.restore(), LinuxRestore::Nothing);
    r.applied_via_resolv_conf();
    assert_eq!(r.restore(), LinuxRestore::RestoreResolvConf);
    assert_eq!(r.active, LinuxActive::Idle);
    assert_eq!(RedirectError::NoDefaultRouteInterface.message(), "could not determine default-route interface");
}

#[test]
fn windows_arguments() {
    assert_eq!(
        netsh_set("Wi-Fi", "127.0.0.1"),
        strs(&["interface", "ipv4", "set", "dnsservers", "name=Wi-Fi", "static", "127.0.0.1", "primary"])
    );
    assert_eq!(netsh_clear("Ethernet 2"), strs(&["interface", "ipv4", "set", "dnsservers", "name=Ethernet 2", "dhcp"]));
    assert_eq!(wide("A\u{1F600}"), vec![0x41, 0xD83D, 0xDE00, 0]);
    assert_eq!(wide("Wi-Fi"), "Wi-Fi".encode_utf16().chain(std::iter::once(0)).collect::<Vec<u16>>());
}

#[test]
fn windows_native_then_fallback() {
    assert_eq!(WindowsRedirector::check_interfaces(&vec![]), Err(RedirectError::NoConnectedInterfaces));
    let mut r = WindowsRedirector::new();
    // "Ethernet" fails natively, "Wi-Fi" takes the native setting: Ethernet
    // must still be pointed at the proxy, through netsh.
    let for_netsh = r.settle_native(strs(&["Ethernet", "Wi-Fi"]), &vec![false, true]);
    assert_eq!(for_netsh, strs(&["Ethernet"]));
    assert_eq!(r.native, strs(&["Wi-Fi"]));
    assert!(r.netsh.is_empty());
    for name in for_netsh {
        r.applied_via_netsh(name);
    }
    assert_eq!(r.netsh, strs(&["Ethernet"]));
    let undo = r.restore();
    assert_eq!(undo.clear_native, strs(&["Wi-Fi"]));
    assert_eq!(undo.clear_netsh, strs(&["Ethernet"]));
    let again = r.restore();
    assert!(again.clear_native.is_empty() && again.clear_netsh.is_empty());
    let all = r.settle_native(strs(&["Ethernet", "Wi-Fi"]), &vec![false, false]);
    assert_eq!(all, strs(&["Ethernet", "Wi-Fi"]));
    assert!(r.native.is_empty());
}

#[test]
fn macos_paths_and_arguments() {
    assert_eq!(
        state_dns_path("Setup:/Network/Service/1234-ABCD"),
        "State:/Network/Service/1234-ABCD/DNS"
    );
    assert_eq!(state_dns_path("noslash"), "State:/Network/Service/noslash/DNS");
    assert_eq!(state_dns_path("trailing/"), "State:/Network/Service//DNS");
    assert_eq!(set_dns_servers_args("Wi-Fi", "127.0.0.1"), strs(&["-setdnsservers", "Wi-Fi", "127.0.0.1"]));
    let saved = vec![
        ("Wi-Fi".to_string(), strs(&["1.1.1.1", "8.8.8.8"])),
        ("USB".to_string(), vec![]),
    ];
    assert_eq!(
        restore_shell(&saved),
        vec![strs(&["-setdnsservers", "Wi-Fi", "1.1.1.1", "8.8.8.8"]), strs(&["-setdnsservers", "USB", "Empty"])]
    );
}

#[test]
fn macos_records_and_restore() {
    let mut r = MacosRedirector::new();
    assert_eq!(r.applied_native(vec![]), Err(RedirectError::NoServiceAccepted));
    assert!(matches!(r.applied, MacosApplied::Unset));
    assert_eq!(MacosRedirector::check_services(&vec![]), Err(RedirectError::NoNetworkServices));
    r.applied_native(strs(&["State:/Network/Service/A/DNS"])).unwrap();
    assert!(matches!(r.restore(), MacosRestore::RemoveKeys(k) if k == strs(&["State:/Network/Service/A/DNS"])));
    assert!(matches!(r.restore(), MacosRestore::Nothing));
    r.applied_shell(vec![("Wi-Fi".to_string(), vec![])]);
    match r.restore() {
        MacosRestore::RunNetworksetup(c) => assert_eq!(c, vec![strs(&["-setdnsservers", "Wi-Fi", "Empty"])]),
        _ => panic!("expected networksetup commands"),
    }
    assert_eq!(RedirectError::NoServiceAccepted.message(), "failed to set DNS on any service");
}

#[test]
fn upstream_plans() {
    assert!(matches!(upstream_name_servers(&UpstreamSel::Cloudflare), Ok(UpstreamPlan::Preset(DohPreset::Cloudflare))));
    assert!(matches!(upstream_name_servers(&UpstreamSel::Quad9), Ok(UpstreamPlan::Preset(DohPreset::Quad9))));
    match upstream_name_servers(&UpstreamSel::Voidns) {
        Ok(UpstreamPlan::Endpoint(e)) => {
            assert_eq!(e.ip, IpAddress::V4([1, 1, 1, 1]));
            assert_eq!(e.hostname, "cloudflare-dns.com");
            assert_eq!(e.path, "/dns-query");
            assert_eq!(e.port, None);
        }
        _ => panic!("voidns has a fixed endpoint"),
    }
    let custom = UpstreamSel::Custom { ip: "::1".into(), hostname: "localhost".into(), path: "/q".into(), port: 8443 };
    match upstream_name_servers(&custom) {
        Ok(UpstreamPlan::Endpoint(e)) => {
            assert_eq!(e.port, Some(8443));
            assert_eq!(e.ip, IpAddress::V6([0, 0, 0, 0, 0, 0, 0, 0, 0, 0, 0, 0, 0, 0, 0, 1]));
        }
        _ => panic!("custom endpoint"),
    }
    let bad = UpstreamSel::Custom { ip: "dns.example".into(), hostname: "h".into(), path: "/".into(), port: 1 };
    match upstream_name_servers(&bad) {
        Err(e) => {
            assert_eq!(e, UpstreamPlanError::CustomIp);
            assert_eq!(e.message(), "custom DoH bootstrap IP: invalid IP address syntax");
        }
        Ok(_) => panic!("not an IP"),
    }
}

#[test]
fn extra_ca_choice() {
    let s = extra_ca_source(Some("/tmp/ca.pem".into()), default_extra_ca_path());
    assert_eq!((s.path.as_str(), s.required), ("/tmp/ca.pem", true));
    let s = extra_ca_source(None, default_extra_ca_path());
    assert_eq!((s.path.as_str(), s.required), ("/etc/voidns/extra-ca.pem", false));
    assert!(matches!(extra_ca_outcome(true, None), ExtraCaOutcome::ReadFailed));
    assert!(matches!(extra_ca_outcome(false, None), ExtraCaOutcome::NotPresent));
    match extra_ca_outcome(false, Some(b"no pem sections here\n".to_vec())) {
        ExtraCaOutcome::Trust { certs, parse_error } => {
            assert!(certs.is_empty());
            assert!(parse_error.is_none());
        }
        _ => panic!("bundle was read"),
    }
    let pem = b"-----BEGIN CERTIFICATE-----\nAAEC\n-----END CERTIFICATE-----\n".to_vec();
    match extra_ca_outcome(true, Some(pem)) {
        ExtraCaOutcome::Trust { certs, parse_error } => {
            assert_eq!(certs, vec![vec![0u8, 1, 2]]);
            assert!(parse_error.is_none());
        }
        _ => panic!("bundle was read"),
    }
    match trust_from_scan((vec![vec![1]], Some("bad base64".into()))) {
        ExtraCaOutcome::Trust { certs, parse_error } => {
            assert_eq!(certs, vec![vec![1u8]]);
            assert_eq!(parse_error.as_deref(), Some("parse extra CA PEM: bad base64"));
        }
        _ => panic!("trust"),
    }
}

#[test]
fn plans_from_parsed_bootstrap() {
    let custom = UpstreamSel::Custom { ip: "x".into(), hostname: "h".into(), path: "/p".into(), port: 9 };
    match plan_with_bootstrap(&custom, Some(IpAddress::V4([10, 0, 0, 1]))) {
        Ok(UpstreamPlan::Endpoint(e)) => {
            assert_eq!(e.ip, IpAddress::V4([10, 0, 0, 1]));
            assert_eq!((e.hostname.as_str(), e.path.as_str(), e.port), ("h", "/p", Some(9)));
        }
        _ => panic!("endpoint"),
    }
    assert!(matches!(plan_with_bootstrap(&custom, None), Err(UpstreamPlanError::CustomIp)));
    match plan_with_bootstrap(&UpstreamSel::Voidns, None) {
        Ok(UpstreamPlan::Endpoint(e)) => assert_eq!(e.ip, IpAddress::V4([1, 1, 1, 1])),
        _ => panic!("voidns always has its fixed endpoint"),
    }
    assert!(matches!(
        plan_with_bootstrap(&UpstreamSel::Google, None),
        Ok(UpstreamPlan::Preset(DohPreset::Google))
    ));
    assert_eq!(UpstreamPlanError::CustomIp.message(), "custom DoH bootstrap IP: invalid IP address syntax");
}

#[test]
fn windows_extra_ca_default() {
    let d = windows_default_extra_ca_path(None);
    assert_eq!(d.base, "C:\\ProgramData");
    assert_eq!(d.components, strs(&["VoidNS", "extra-ca.pem"]));
    let v = windows_default_extra_ca_path(Some("\\\\?\\C:\\Data/".into()));
    assert_eq!(v.base, "\\\\?\\C:\\Data/");
    assert_eq!(v.components, strs(&["VoidNS", "extra-ca.pem"]));
}

#[test]
fn macos_native_keys_recorded() {
    let mut r = MacosRedirector::new();
    let setup = strs(&["Setup:/Network/Service/A", "Setup:/Network/Service/B"]);
    assert_eq!(r.settle_native_keys(&setup, &vec![false, false]), Err(RedirectError::NoServiceAccepted));
    assert!(matches!(r.applied, MacosApplied::Unset));
    r.settle_native_keys(&setup, &vec![false, true]).unwrap();
    assert!(matches!(&r.applied, MacosApplied::Native(k) if *k == strs(&["State:/Network/Service/B/DNS"])));
}
