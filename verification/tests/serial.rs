use nexus_controller::serial::{
    config_value, cpu_serial, disk_uuid, fingerprint_of_uuid, generate_device_fingerprint, mac_address, subdomain,
    uuid_prefix,
    SerialAction, SerialManager, SERIAL_ATTEMPTS,
};

fn cfg(pairs: &[(&str, &str)]) -> Vec<(String, String)> {
    pairs.iter().map(|(k, v)| (k.to_string(), v.to_string())).collect()
}

#[test]
fn fingerprint_is_sha256_prefix_in_hex() {
    let f = generate_device_fingerprint(&vec!["abc".to_string()]);
    assert_eq!(f, "BA7816BF8F01CFEA");
    let g = generate_device_fingerprint(&vec![]);
    assert_eq!(g.len(), 16);
    assert!(g.chars().all(|c| c.is_ascii_hexdigit() && !c.is_ascii_lowercase() || c == '-'));
    assert_eq!(&g[8..9], "-");
    assert_eq!(&g[13..14], "-");
    assert_eq!(fingerprint_of_uuid("3f2a9c1e-7b4d-4e8a-9c2f-1a2b3c4d5e6f"), "3F2A9C1E-7B4D-4E");
}

#[test]
fn device_facts_from_system_text() {
    assert_eq!(cpu_serial("model : x\nSerial\t\t: 10000000abcdef01\n"), Some("10000000abcdef01".to_string()));
    assert_eq!(cpu_serial("nothing"), None);
    assert_eq!(
        mac_address("2: eth0: <BROADCAST>\n    link/ether b8:27:eb:12:34:56 brd ff:ff:ff:ff:ff:ff\n"),
        Some("b827eb123456".to_string())
    );
    assert_eq!(
        disk_uuid("/dev/mmcblk0p1: UUID=\"AAAA\"\n/dev/mmcblk0p2: LABEL=\"rootfs\" UUID=\"d34db33f-1234\" TYPE=\"ext4\"\n"),
        Some("d34db33f-1234".to_string())
    );
    assert_eq!(uuid_prefix("d34db33f-1234"), "d34db33f");
    assert_eq!(uuid_prefix("abc"), "abc");
}

#[test]
fn configuration_lookup() {
    let c = cfg(&[("A", "1"), ("A", "2"), ("B", "")]);
    assert_eq!(config_value(&c, "A"), Some("1".to_string()));
    assert_eq!(config_value(&c, "C"), None);
}

#[test]
fn manager_settings() {
    let m = SerialManager::new(cfg(&[("CLOUDFLARE_API_TOKEN", "")]), Some("  tok \n".to_string()), &vec!["abc".to_string()]);
    assert_eq!(m.cloudflare_token(), Some("tok".to_string()));
    assert_eq!(m.domain_name(), "automatacontrols.com");
    assert_eq!(m.device_fingerprint(), "BA7816BF8F01CFEA");
    assert_eq!(m.zones_url(), "https://api.cloudflare.com/client/v4/zones?name=automatacontrols.com");
    let m2 = SerialManager::new(cfg(&[("CLOUDFLARE_API_TOKEN", "abc"), ("CLOUDFLARE_DOMAIN", "ex.com")]), None, &vec!["abc".to_string()]);
    assert_eq!(m2.cloudflare_token(), Some("abc".to_string()));
    assert_eq!(
        m2.dns_records_url("Z1", "ANC-AB"),
        "https://api.cloudflare.com/client/v4/zones/Z1/dns_records?name=nexuscontroller-anc-ab.ex.com"
    );
}

#[test]
fn existing_serial_is_reused() {
    let m = SerialManager::new(vec![], None, &vec!["abc".to_string()]);
    let cached = Some(("ANC-1".to_string(), "BA7816BF8F01CFEA".to_string()));
    assert_eq!(m.load_existing_serial(cached, Some("SYS".to_string())), Some("ANC-1".to_string()));
    let stale = Some(("ANC-1".to_string(), "OTHER".to_string()));
    assert_eq!(m.load_existing_serial(stale, Some(" SYS\n".to_string())), Some("SYS".to_string()));
    assert_eq!(m.load_existing_serial(None, None), None);
    let (_, action) = m.begin_serial_search(Some("ANC-9".to_string()));
    assert!(matches!(action, SerialAction::UseExisting(s) if s == "ANC-9"));
}

#[test]
fn first_free_candidate_is_claimed() {
    let m = SerialManager::new(cfg(&[("CONTROLLER_SERIAL_PREFIX", "XYZ")]), None, &vec!["abc".to_string()]);
    let (mut search, action) = m.begin_serial_search(None);
    assert!(matches!(&action, SerialAction::CheckAvailability(c) if c == "XYZ-BA7816BF"));
    let next = m.continue_serial_search(&mut search, true, 0);
    match next {
        SerialAction::CheckAvailability(c) => {
            assert_eq!(c.len(), 10);
            assert!(c.starts_with("XYZ-"));
            assert!(c[4..].chars().all(|ch| ch.is_ascii_digit() || ch.is_ascii_uppercase()));
            let claim = m.continue_serial_search(&mut search, false, 0);
            assert!(matches!(claim, SerialAction::Claim(s) if s == c));
        }
        _ => panic!("expected another candidate"),
    }
}

#[test]
fn all_taken_falls_back_to_time() {
    let m = SerialManager::new(vec![], None, &vec!["abc".to_string()]);
    let (mut search, _) = m.begin_serial_search(None);
    let mut last = None;
    for _ in 0..SERIAL_ATTEMPTS {
        last = Some(m.continue_serial_search(&mut search, true, 0));
    }
    assert!(matches!(last, Some(SerialAction::Claim(s)) if s == "ANC-7001010000"));
}

#[test]
fn serial_info_and_subdomain() {
    let m = SerialManager::new(vec![], None, &vec!["abc".to_string()]);
    let info = m.get_serial_info("ANC-AB12", 42);
    assert_eq!(info.subdomain, "nexuscontroller-anc-ab12");
    assert_eq!(info.full_domain, "nexuscontroller-anc-ab12.automatacontrols.com");
    assert_eq!(info.created_at, 42);
    assert_eq!(subdomain("X"), "nexuscontroller-x");
    let meta = m.registration_metadata(&info);
    assert_eq!(meta, vec![
        ("subdomain".to_string(), "nexuscontroller-anc-ab12".to_string()),
        ("domain".to_string(), "automatacontrols.com".to_string()),
    ]);
    assert_eq!(m.registry(), "https://api.automatacontrols.com/serials");
}
