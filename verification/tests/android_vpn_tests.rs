use vnt_app::android_vpn::{
    build_android_vpn_payload, error_to_string, fill_device_id, is_valid_file_name, needs_device_id,
    PayloadError, StartConfig,
};

fn config(device_id: Option<&str>, device_name: Option<&str>, config_name: Option<&str>) -> StartConfig {
    StartConfig {
        device_id: device_id.map(|s| s.to_string()),
        device_name: device_name.map(|s| s.to_string()),
        config_name: config_name.map(|s| s.to_string()),
        no_tun: true,
    }
}

#[test]
fn valid_file_names() {
    assert!(is_valid_file_name("office.toml"));
    assert!(is_valid_file_name("a.b.c"));
    assert!(is_valid_file_name("."));
    assert!(!is_valid_file_name(""));
    assert!(!is_valid_file_name(".."));
    assert!(!is_valid_file_name("a..toml"));
    assert!(!is_valid_file_name("dir/a.toml"));
    assert!(!is_valid_file_name("dir\\a.toml"));
}

#[test]
fn payload_rejects_invalid_file_name() {
    let r = build_android_vpn_payload("../x.toml".to_string(), Some(config(None, None, None)));
    assert_eq!(r.err(), Some(PayloadError::InvalidFileName));
    let r = build_android_vpn_payload("../x.toml".to_string(), None);
    assert_eq!(r.err(), Some(PayloadError::InvalidFileName));
}

#[test]
fn payload_rejects_unreadable_config() {
    let r = build_android_vpn_payload("x.toml".to_string(), None);
    assert_eq!(r.err(), Some(PayloadError::InvalidConfig));
}

#[test]
fn payload_normalizes_config() {
    let p = build_android_vpn_payload(
        "home.toml".to_string(),
        Some(config(Some("id-1"), Some("  "), Some("Home"))),
    )
    .unwrap();
    assert_eq!(p.file_name, "home.toml");
    assert_eq!(p.config_name, "Home");
    assert!(!p.config.no_tun);
    assert_eq!(p.config.device_name, None);
    assert_eq!(p.config.device_id.as_deref(), Some("id-1"));
    assert_eq!(p.config.config_name.as_deref(), Some("Home"));
}

#[test]
fn payload_falls_back_to_file_name() {
    let p = build_android_vpn_payload(
        "home.toml".to_string(),
        Some(config(None, Some("phone"), Some(" \t"))),
    )
    .unwrap();
    assert_eq!(p.config_name, "home.toml");
    assert_eq!(p.config.device_name.as_deref(), Some("phone"));
    assert_eq!(p.config.config_name.as_deref(), Some(" \t"));
    let p = build_android_vpn_payload("w.toml".to_string(), Some(config(None, None, None))).unwrap();
    assert_eq!(p.config_name, "w.toml");
}

#[test]
fn config_name_kept_untrimmed() {
    let p = build_android_vpn_payload(
        "w.toml".to_string(),
        Some(config(None, None, Some(" Work "))),
    )
    .unwrap();
    assert_eq!(p.config_name, " Work ");
}

#[test]
fn device_id_needed_when_blank() {
    assert!(needs_device_id(&config(None, None, None)));
    assert!(needs_device_id(&config(Some(" \n"), None, None)));
    assert!(needs_device_id(&config(Some(""), None, None)));
    assert!(!needs_device_id(&config(Some("abc"), None, None)));
}

#[test]
fn error_messages() {
    assert_eq!(error_to_string(PayloadError::InvalidFileName), "Invalid file name");
    assert_eq!(error_to_string(PayloadError::InvalidConfig), "Invalid TOML format in configuration");
    assert_eq!(error_to_string(PayloadError::DeviceIdUnavailable), "failed to get device_id");
    assert_eq!(
        error_to_string(PayloadError::DataDirUnavailable),
        "failed to resolve app data directory for device_id"
    );
    assert_eq!(
        error_to_string(PayloadError::SerializeFailed),
        "failed to serialize Android VPN configuration"
    );
}

#[test]
fn device_id_filled_where_needed() {
    let mut c = config(None, Some("phone"), Some("Home"));
    fill_device_id(&mut c, "dev-1".to_string());
    assert_eq!(c.device_id.as_deref(), Some("dev-1"));
    assert_eq!(c.device_name.as_deref(), Some("phone"));
    assert_eq!(c.config_name.as_deref(), Some("Home"));
    assert!(c.no_tun);
    let mut c = config(Some("  "), None, None);
    fill_device_id(&mut c, "dev-2".to_string());
    assert_eq!(c.device_id.as_deref(), Some("dev-2"));
    fill_device_id(&mut c, "dev-3".to_string());
    assert_eq!(c.device_id.as_deref(), Some("dev-2"));
    let mut c = config(Some("own"), None, None);
    fill_device_id(&mut c, "dev-4".to_string());
    assert_eq!(c.device_id.as_deref(), Some("own"));
}
