use dhcpleasemon::lease::{get_lease_ip4_addr, get_lease_ip6_extract, Lease6Params, LeaseParams};
use dhcpleasemon::monitor::{Args, Monitor, TriggerAction};
use dhcpleasemon::route::{find_default_route, Family};
use dhcpleasemon::store::KeyedStore;
use dhcpleasemon::text::{chars_of, is_whitespace, trim_span, word_spans};

fn args() -> Args {
    Args {
        foreground: true,
        pid_file: "/var/run/dhcpleasemon.pid".to_string(),
        root_dir: "/".to_string(),
        scripts_dir: "/etc/dhcpleasemon".to_string(),
        trigger_script_prefix: "lease_trigger_".to_string(),
        trigger_script_prefix_ipv6: "lease6_trigger_".to_string(),
        dhcp_lease_dir: "/var/db/dhcpleased".to_string(),
        dhcp6_lease_dir: "/var/db/dhcp6leased".to_string(),
        interval: 1,
        interfaces: vec!["em0".to_string()],
        ipv6: true,
        verbosity: false,
    }
}

fn env_of(a: &TriggerAction) -> Vec<(&str, &str)> {
    a.env.iter().map(|(k, v)| (k.as_str(), v.as_str())).collect()
}

const TABLE4: &str = "Routing tables\n\nInternet:\n\
Destination        Gateway            Flags   Refs      Use   Mtu  Prio Iface\n\
default  192.0.2.1  UGS  0  0  0  1500  em0\n\
192.0.2/24         link#1             UCn        1        0     -     4 em0\n";

#[test]
fn ip4_address_is_read() {
    let r = get_lease_ip4_addr("version: 2\nip: 10.0.0.5\nmask: 255.255.255.0\n");
    assert_eq!(r, Some("10.0.0.5".to_string()));
}

#[test]
fn ip4_address_missing_gives_none() {
    assert_eq!(get_lease_ip4_addr("version: 2\nmask: 255.255.255.0\n"), None);
    assert_eq!(get_lease_ip4_addr(""), None);
    assert_eq!(get_lease_ip4_addr("ip 10.0.0.5\n"), None);
    assert_eq!(get_lease_ip4_addr("ipaddr: 10.0.0.5\n"), None);
}

#[test]
fn ip4_first_ip_line_wins_and_is_trimmed() {
    let r = get_lease_ip4_addr("  ip  :\t10.0.0.7  \r\nip: 10.0.0.8\n");
    assert_eq!(r, Some("10.0.0.7".to_string()));
}

#[test]
fn ip4_value_keeps_later_colons() {
    let r = get_lease_ip4_addr("ip: fe80::1\n");
    assert_eq!(r, Some("fe80::1".to_string()));
}

#[test]
fn ip4_empty_value_is_found_empty() {
    assert_eq!(get_lease_ip4_addr("ip:\n"), Some(String::new()));
}

#[test]
fn ip6_prefix_is_read() {
    let r = get_lease_ip6_extract("iface em0\nia_pd 0 2001:db8::/56 56\n");
    assert_eq!(r, Some(("2001:db8::/56".to_string(), "56".to_string())));
}

#[test]
fn ip6_prefix_missing_gives_none() {
    assert_eq!(get_lease_ip6_extract("iface em0\n\n"), None);
    assert_eq!(get_lease_ip6_extract(""), None);
    assert_eq!(get_lease_ip6_extract("xia_pd 0 2001:db8::/56 56"), None);
}

#[test]
fn ip6_short_ia_pd_line_is_skipped() {
    let r = get_lease_ip6_extract("ia_pd 0\n   ia_pd\t1  2001:db8:1::/48   48 extra\n");
    assert_eq!(r, Some(("2001:db8:1::/48".to_string(), "48".to_string())));
}

#[test]
fn default_route_is_found() {
    let table = "default  192.168.1.1  UGS  0  0  0  1500  em0";
    assert_eq!(find_default_route(table, "em0"), Some("192.168.1.1".to_string()));
}

#[test]
fn default_route_other_interface_or_shape() {
    assert_eq!(find_default_route(TABLE4, "em1"), None);
    assert_eq!(find_default_route("default 192.0.2.1 UGS 0 0 1500 em0\n", "em0"), None);
    assert_eq!(find_default_route("default 192.0.2.1 UGS 0 0 0 1500 em0 x\n", "em0"), None);
    assert_eq!(find_default_route("", "em0"), None);
    assert_eq!(find_default_route(TABLE4, "em0"), Some("192.0.2.1".to_string()));
}

#[test]
fn default_route_first_matching_row_wins() {
    let table = "10/8 192.0.2.9 UGS 0 0 0 1500 em0\n\
                 default 192.0.2.1 UGS 0 0 0 1500 em1\n\
                 default 192.0.2.2 UGS 0 0 0 1500 em0\n\
                 default 192.0.2.3 UGS 0 0 0 1500 em0\n";
    assert_eq!(find_default_route(table, "em0"), Some("192.0.2.2".to_string()));
}

#[test]
fn family_names() {
    assert_eq!(Family::V4.proto(), "inet");
    assert_eq!(Family::V6.proto(), "inet6");
}

#[test]
fn paths_are_joined() {
    let m = Monitor::new(args());
    assert_eq!(m.get_lease_file_path("em0"), "/var/db/dhcpleased/em0");
    assert_eq!(m.get_lease6_file_path("em0"), "/var/db/dhcp6leased/em0");
    assert_eq!(m.get_trigger_script_path("em0"), "/etc/dhcpleasemon/lease_trigger_em0");
    assert_eq!(m.get_trigger_script_path_ipv6("em0"), "/etc/dhcpleasemon/lease6_trigger_em0");
    assert!(!m.verbosity());
}

#[test]
fn file_modified_only_when_time_advances() {
    let mut m = Monitor::new(args());
    let p = "/var/db/dhcpleased/em0";
    assert!(!m.check_file_modified(p, 0));
    assert!(m.check_file_modified(p, 100));
    assert!(!m.check_file_modified(p, 100));
    assert!(!m.check_file_modified(p, 50));
    assert!(!m.check_file_modified(p, 100));
    assert!(m.check_file_modified(p, 101));
    assert!(m.check_file_modified("/var/db/dhcpleased/em1", 1));
}

#[test]
fn actual_params_degrade_to_empty() {
    let m = Monitor::new(args());
    let p = m.get_actual_lease_params("em0", None, None);
    assert_eq!(p.iface_name, "em0");
    assert_eq!(p.ip_addr, "");
    assert_eq!(p.route_addr, "");
    let p6 = m.get_actual_lease6_params("em0", Some("nothing here\n"), Some(TABLE4));
    assert_eq!(p6.ip6_prefix, "");
    assert_eq!(p6.ip6_prefix_len, "");
    assert_eq!(p6.route6_addr, "192.0.2.1");
}

#[test]
fn end_to_end_first_observation_fires() {
    let mut m = Monitor::new(args());
    let path = m.get_lease_file_path("em0");
    assert!(m.check_file_modified(&path, 1_000));
    let a = m.check_lease("em0", Some("ip: 192.0.2.10\n"), Some(TABLE4)).expect("fires");
    assert_eq!(a.script_path, "/etc/dhcpleasemon/lease_trigger_em0");
    assert_eq!(
        env_of(&a),
        vec![
            ("DHCP_IFACE", "em0"),
            ("DHCP_IP_ADDR", "192.0.2.10"),
            ("DHCP_IP_ROUTE", "192.0.2.1")
        ]
    );
    let key = "em0".to_string();
    let cached = m.lease_params.get(&key).expect("cached");
    assert_eq!(cached.iface_name, "em0");
    assert_eq!(cached.ip_addr, "192.0.2.10");
    assert_eq!(cached.route_addr, "192.0.2.1");
}

#[test]
fn second_cycle_unchanged_is_quiet() {
    let mut m = Monitor::new(args());
    let path = m.get_lease_file_path("em0");
    let mut fired = 0;
    for _ in 0..2 {
        if m.check_file_modified(&path, 1_000) {
            if m.check_lease("em0", Some("ip: 192.0.2.10\n"), Some(TABLE4)).is_some() {
                fired += 1;
            }
        }
    }
    assert_eq!(fired, 1);
}

#[test]
fn touched_file_with_same_lease_does_not_fire() {
    let mut m = Monitor::new(args());
    let path = m.get_lease_file_path("em0");
    assert!(m.check_file_modified(&path, 1));
    assert!(m.check_lease("em0", Some("ip: 192.0.2.10\n"), Some(TABLE4)).is_some());
    assert!(m.check_file_modified(&path, 2));
    assert!(m.check_lease("em0", Some("ip: 192.0.2.10\n"), Some(TABLE4)).is_none());
    assert!(m.check_file_modified(&path, 3));
    let a = m.check_lease("em0", Some("ip: 192.0.2.11\n"), Some(TABLE4)).expect("fires");
    assert_eq!(env_of(&a)[1], ("DHCP_IP_ADDR", "192.0.2.11"));
}

#[test]
fn route_change_alone_fires() {
    let mut m = Monitor::new(args());
    assert!(m.check_lease("em0", Some("ip: 192.0.2.10\n"), Some(TABLE4)).is_some());
    let a = m.check_lease("em0", Some("ip: 192.0.2.10\n"), None).expect("fires");
    assert_eq!(env_of(&a)[2], ("DHCP_IP_ROUTE", ""));
}

#[test]
fn first_observation_of_empty_lease_fires() {
    let mut m = Monitor::new(args());
    let a = m.check_lease("em1", None, None).expect("fires");
    assert_eq!(env_of(&a), vec![("DHCP_IFACE", "em1"), ("DHCP_IP_ADDR", ""), ("DHCP_IP_ROUTE", "")]);
}

#[test]
fn v6_cycle_fires_once_with_its_environment() {
    let mut m = Monitor::new(args());
    let table6 = "default  fe80::1%em0  UGS  0  0  0  1500  em0\n";
    let text = "ia_pd 0 2001:db8::/56 56\n";
    let a = m.check_lease6("em0", Some(text), Some(table6)).expect("fires");
    assert_eq!(a.script_path, "/etc/dhcpleasemon/lease6_trigger_em0");
    assert_eq!(
        env_of(&a),
        vec![
            ("DHCP6_IFACE", "em0"),
            ("DHCP6_IP_PREFIX", "2001:db8::/56"),
            ("DHCP6_IP_PREFIX_LEN", "56"),
            ("DHCP6_IP_ROUTE", "fe80::1%em0")
        ]
    );
    assert!(m.check_lease6("em0", Some(text), Some(table6)).is_none());
    // the v4 cache of the same interface is independent
    assert!(m.check_lease("em0", Some("ip: 192.0.2.10\n"), None).is_some());
}

#[test]
fn params_equality_is_by_fields() {
    let a = LeaseParams {
        iface_name: "em0".to_string(),
        ip_addr: "1.2.3.4".to_string(),
        route_addr: "".to_string(),
    };
    let mut b = a.clone();
    assert!(a == b);
    b.route_addr = "1.2.3.1".to_string();
    assert!(a != b);
    let c = Lease6Params {
        iface_name: "em0".to_string(),
        ip6_prefix: "2001:db8::/56".to_string(),
        ip6_prefix_len: "56".to_string(),
        route6_addr: "".to_string(),
    };
    let mut d = c.clone();
    assert!(c == d);
    d.ip6_prefix_len = "48".to_string();
    assert!(c != d);
}

#[test]
fn keyed_store_replaces_values() {
    let mut s: KeyedStore<u128> = KeyedStore::new();
    let k = "a".to_string();
    assert_eq!(s.get(&k), None);
    s.insert(k.clone(), 1);
    s.insert("b".to_string(), 2);
    s.insert(k.clone(), 3);
    assert_eq!(s.get(&k), Some(&3));
    assert_eq!(s.get(&"b".to_string()), Some(&2));
}

#[test]
fn text_helpers() {
    let cs = chars_of(" \u{3000}ab cd\t\u{a0}");
    assert_eq!(cs.len(), 9);
    assert_eq!(trim_span(&cs, 0, cs.len()), (2, 7));
    assert_eq!(word_spans(&cs, 0, cs.len()), vec![(2, 4), (5, 7)]);
    assert!(is_whitespace('\u{2028}'));
    assert!(!is_whitespace('x'));
}
