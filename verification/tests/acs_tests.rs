use acsrs::acs::Acs;
use acsrs::db;
use acsrs::AcsError;

fn insert_with_url(acs: &mut Acs, serial: &str, url: &str) {
    let i = acs.lookup_or_insert(&serial.to_string());
    acs.cpe_list[i].connreq.url = url.to_string();
}

#[test]
fn test_acs_save_restore() {
    let mut acs = Acs::new("/tmp");

    insert_with_url(&mut acs, "CPE1_SN", "http://192.168.1.X:7547/CPE1");
    insert_with_url(&mut acs, "CPE2_SN", "http://192.168.1.X:7547/CPE2");

    let record = acs.save();
    let restored = Acs::restore(&record, "/tmp").unwrap();

    assert_eq!(&restored.config.username, &acs.config.username);
    assert_eq!(&restored.config.password, &acs.config.password);
    assert_eq!(&restored.basicauth, &acs.basicauth);
    let i1 = restored.lookup(&"CPE1_SN".to_string()).unwrap();
    assert_eq!(&restored.cpe_list[i1].connreq.url, "http://192.168.1.X:7547/CPE1");
    let i2 = restored.lookup(&"CPE2_SN".to_string()).unwrap();
    assert_eq!(&restored.cpe_list[i2].connreq.url, "http://192.168.1.X:7547/CPE2");
}

#[test]
fn test_lookup_or_insert_is_idempotent() {
    let mut acs = Acs::new("/tmp");
    let serial = "CPE1_SN".to_string();
    let first = acs.lookup_or_insert(&serial);
    let second = acs.lookup_or_insert(&serial);
    assert_eq!(first, second);
    assert_eq!(acs.cpe_list.len(), 1);
    assert_eq!(acs.cpe_list[first].device_id.serial_number, "CPE1_SN");
}

#[test]
fn test_lookup_unknown_serial_is_none() {
    let acs = Acs::new("/tmp");
    assert!(acs.lookup(&"unknown".to_string()).is_none());
}

#[test]
fn test_restore_derives_basicauth() {
    // The exact standard base64 of "admin:secret": a restore must derive
    // the very auth string these credentials encode to.
    let mut config = db::AcsConfig::default();
    config.username = "admin".to_string();
    config.password = "secret".to_string();
    let record = db::Acs { config, cpe: Vec::new() };
    let restored = Acs::restore(&record, "/tmp").unwrap();
    assert_eq!(&restored.basicauth, "Basic YWRtaW46c2VjcmV0");
}

#[test]
fn test_restore_rejects_duplicate_serial() {
    let record = db::Acs {
        config: db::AcsConfig::default(),
        cpe: vec![
            db::CPE {
                serial_number: "CPE1_SN".to_string(),
                url: "http://192.168.1.X:7547/CPE1".to_string(),
                username: "a".to_string(),
                password: "b".to_string(),
            },
            db::CPE {
                serial_number: "CPE1_SN".to_string(),
                url: "http://192.168.1.X:7547/CPE2".to_string(),
                username: "c".to_string(),
                password: "d".to_string(),
            },
        ],
    };
    match Acs::restore(&record, "/tmp") {
        Err(AcsError::ConfigError) => (),
        other => panic!("expected ConfigError, got {:?}", other.map(|_| ())),
    }
}

#[test]
fn test_restore_preserves_connreq_credentials() {
    let record = db::Acs {
        config: db::AcsConfig::default(),
        cpe: vec![db::CPE {
            serial_number: "CPE9".to_string(),
            url: "http://10.0.0.9:7547/".to_string(),
            username: "user9".to_string(),
            password: "pass9".to_string(),
        }],
    };
    let restored = Acs::restore(&record, "/srv/acs").unwrap();
    assert_eq!(&restored.acsdir, "/srv/acs");
    let i = restored.lookup(&"CPE9".to_string()).unwrap();
    let cpe = &restored.cpe_list[i];
    assert_eq!(&cpe.connreq.url, "http://10.0.0.9:7547/");
    assert_eq!(&cpe.connreq.username, "user9");
    assert_eq!(&cpe.connreq.password, "pass9");
    assert_eq!(cpe.session_refs, 0);
    assert_eq!(cpe.controller_refs, 0);
}

#[test]
fn test_print_config_builds_urls() {
    let acs = Acs::new("/tmp");
    let setup = acs.print_config("example.com").unwrap();
    assert_eq!(&setup.secure_url, "https://example.com:8443/cwmpWeb/CPEMgt");
    assert_eq!(&setup.unsecure_url, "http://example.com:8080/cwmpWeb/CPEMgt");
    assert_eq!(&setup.username, &acs.config.username);
    assert_eq!(&setup.password, &acs.config.password);
}

#[test]
fn test_print_config_brackets_ipv6_hostname() {
    let acs = Acs::new("/tmp");
    let setup = acs.print_config("::1").unwrap();
    assert_eq!(&setup.secure_url, "https://[::1]:8443/cwmpWeb/CPEMgt");
    assert_eq!(&setup.unsecure_url, "http://[::1]:8080/cwmpWeb/CPEMgt");
}

#[test]
fn test_print_config_without_port_is_none() {
    // A default (blank) configuration holds no bind addresses at all.
    let record = db::Acs { config: db::AcsConfig::default(), cpe: Vec::new() };
    let restored = Acs::restore(&record, "/tmp").unwrap();
    assert!(restored.print_config("example.com").is_none());
}
