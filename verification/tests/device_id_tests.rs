use vnt_app::device_id::{
    get_device_id, get_fallback_id, new_device_id, DeviceId, DeviceIdDir, DeviceIdSource,
};

fn is_v4_uuid(s: &str) -> bool {
    let c: Vec<char> = s.chars().collect();
    c.len() == 36
        && (0..36).all(|i| {
            if [8, 13, 18, 23].contains(&i) {
                c[i] == '-'
            } else {
                c[i].is_ascii_digit() || ('a'..='f').contains(&c[i])
            }
        })
        && c[14] == '4'
        && ['8', '9', 'a', 'b'].contains(&c[19])
}

#[test]
fn stored_id_is_trimmed() {
    match get_fallback_id(Some("  abc-123\n".to_string())) {
        DeviceId::Stored(id) => assert_eq!(id, "abc-123"),
        DeviceId::Missing => panic!("expected the stored id"),
    }
}

#[test]
fn blank_file_has_no_id() {
    assert!(matches!(get_fallback_id(Some(" \n\t".to_string())), DeviceId::Missing));
    assert!(matches!(get_fallback_id(Some(String::new())), DeviceId::Missing));
}

#[test]
fn missing_file_has_no_id() {
    assert!(matches!(get_fallback_id(None), DeviceId::Missing));
}

#[test]
fn new_id_from_random_bytes() {
    assert_eq!(new_device_id([0; 16]), "00000000-0000-4000-8000-000000000000");
    assert_eq!(new_device_id([0xff; 16]), "ffffffff-ffff-4fff-bfff-ffffffffffff");
    let bytes = [
        0x67, 0xe5, 0x50, 0x44, 0x10, 0xb1, 0x42, 0x6f, 0x92, 0x47, 0xbb, 0x68, 0x0e, 0x5f, 0xe0, 0xc8,
    ];
    assert_eq!(new_device_id(bytes), "67e55044-10b1-426f-9247-bb680e5fe0c8");
    let bytes = [1, 2, 3, 4, 5, 6, 0x17, 8, 0x5a, 10, 11, 12, 13, 14, 15, 16];
    assert_eq!(new_device_id(bytes), "01020304-0506-4708-9a0a-0b0c0d0e0f10");
    for seed in 0u8..=255 {
        let bytes = [seed.wrapping_mul(37); 16];
        assert!(is_v4_uuid(&new_device_id(bytes)));
    }
}

#[test]
fn generated_id_read_back() {
    let generated = new_device_id([0x3c; 16]);
    match get_fallback_id(Some(format!("{generated}\n"))) {
        DeviceId::Stored(id) => assert_eq!(id, generated),
        DeviceId::Missing => panic!("expected the stored id"),
    }
}

#[test]
fn fallback_dir_set_once() {
    let mut d: DeviceIdDir<String> = DeviceIdDir::new();
    assert_eq!(d.fallback_dir(), None);
    d.set_fallback_dir("/data/a".to_string());
    d.set_fallback_dir("/data/b".to_string());
    assert_eq!(d.fallback_dir(), Some(&"/data/a".to_string()));
}

#[test]
fn system_id_wins() {
    match get_device_id(Some("machine-42".to_string())) {
        DeviceIdSource::System(id) => assert_eq!(id, "machine-42"),
        DeviceIdSource::Fallback => panic!("expected the system id"),
    }
    assert!(matches!(get_device_id(None), DeviceIdSource::Fallback));
}
