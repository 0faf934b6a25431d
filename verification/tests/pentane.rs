use cars2_rich_presence::pentane::{is_uuid_str, PentaneSemVer, PentaneUUID, PluginInformation};

#[test]
fn semver_keeps_its_parts() {
    let v = PentaneSemVer::new(1, -2, 300);
    assert_eq!((v.major, v.minor, v.patch), (1, -2, 300));
}

#[test]
fn uuid_is_read_two_digits_per_byte() {
    let u = PentaneUUID::from_str("ad7d9a00c72611f08de90242ac120002");
    assert_eq!(
        u.data,
        [0xad, 0x7d, 0x9a, 0x00, 0xc7, 0x26, 0x11, 0xf0, 0x8d, 0xe9, 0x02, 0x42, 0xac, 0x12, 0x00, 0x02]
    );
}

#[test]
fn uuid_ignores_letter_case() {
    let lower = PentaneUUID::from_str("ad7d9a00c72611f08de90242ac120002");
    let upper = PentaneUUID::from_str("AD7D9A00C72611F08DE90242AC120002");
    let mixed = PentaneUUID::from_str("aD7d9A00c72611F08dE90242Ac120002");
    assert_eq!(lower.data, upper.data);
    assert_eq!(lower.data, mixed.data);
}

#[test]
fn uuid_edge_values() {
    assert_eq!(PentaneUUID::from_str("00000000000000000000000000000000").data, [0u8; 16]);
    assert_eq!(PentaneUUID::from_str("ffffffffffffffffffffffffffffffff").data, [0xffu8; 16]);
    let u = PentaneUUID::from_str("0123456789abcdefABCDEF0123456789");
    assert_eq!(
        u.data,
        [0x01, 0x23, 0x45, 0x67, 0x89, 0xab, 0xcd, 0xef, 0xab, 0xcd, 0xef, 0x01, 0x23, 0x45, 0x67, 0x89]
    );
}

#[test]
fn plugin_information_pads_its_texts() {
    let uuid = PentaneUUID::from_str("ad7d9a00c72611f08de90242ac120002");
    let info = PluginInformation::new(
        b"Cars 2 Rich Presence",
        b"RiskiVR & memoryleak",
        uuid,
        PentaneSemVer::new(0, 1, 0),
        PentaneSemVer::new(1, 0, 0),
    );
    assert_eq!(&info.name()[..20], b"Cars 2 Rich Presence");
    assert!(info.name()[20..].iter().all(|b| *b == 0));
    assert_eq!(&info.author()[..20], b"RiskiVR & memoryleak");
    assert!(info.author()[20..].iter().all(|b| *b == 0));
    assert_eq!(info.uuid().data, uuid.data);
    let v = info.version();
    assert_eq!((v.major, v.minor, v.patch), (0, 1, 0));
    let m = info.minimum_pentane_version();
    assert_eq!((m.major, m.minor, m.patch), (1, 0, 0));
    assert_eq!(info.reserved().len(), 484);
    assert!(info.reserved().iter().all(|b| *b == 0));
}

#[test]
fn plugin_information_cuts_long_texts() {
    let long: Vec<u8> = (0..300u32).map(|i| (i % 251) as u8 + 1).collect();
    let uuid = PentaneUUID::from_str("00000000000000000000000000000001");
    let info = PluginInformation::new(&long, b"", uuid, PentaneSemVer::new(0, 0, 0), PentaneSemVer::new(0, 0, 0));
    assert_eq!(&info.name()[..], &long[..256]);
    assert!(info.author().iter().all(|b| *b == 0));
    let exact: Vec<u8> = vec![7u8; 256];
    let info = PluginInformation::new(&exact, &exact, uuid, PentaneSemVer::new(0, 0, 0), PentaneSemVer::new(0, 0, 0));
    assert_eq!(&info.name()[..], &exact[..]);
}

fn hex_lower(data: &[u8; 16]) -> String {
    data.iter().map(|b| format!("{:02x}", b)).collect()
}

#[test]
fn uuid_text_round_trips() {
    let text = "AD7d9a00c72611F08de90242ac120002";
    let u = PentaneUUID::from_str(text);
    assert_eq!(hex_lower(&u.data), text.to_ascii_lowercase());
    let data = [0u8, 1, 0x0f, 0x10, 0x7f, 0x80, 0xa5, 0x5a, 0xfe, 0xff, 9, 10, 0xab, 0xcd, 0xef, 0x42];
    assert_eq!(PentaneUUID::from_str(&hex_lower(&data)).data, data);
}

#[test]
fn different_uuid_texts_give_different_bytes() {
    let a = PentaneUUID::from_str("ad7d9a00c72611f08de90242ac120002");
    let b = PentaneUUID::from_str("ad7d9a00c72611f08de90242ac120003");
    let c = PentaneUUID::from_str("da7d9a00c72611f08de90242ac120002");
    assert_ne!(a.data, b.data);
    assert_ne!(a.data, c.data);
}

#[test]
fn uuid_texts_are_checked() {
    assert!(is_uuid_str("ad7d9a00c72611f08de90242ac120002"));
    assert!(is_uuid_str("AD7D9A00C72611F08DE90242AC120002"));
    assert!(!is_uuid_str("ad7d9a00c72611f08de90242ac12000"));
    assert!(!is_uuid_str("ad7d9a00c72611f08de90242ac1200021"));
    assert!(!is_uuid_str("ad7d9a00c72611f08de90242ac12000g"));
    assert!(!is_uuid_str("ad7d9a00-c726-11f0-8de9-0242ac12"));
    assert!(!is_uuid_str(""));
    assert!(!is_uuid_str("ad7d9a00c72611f08de90242ac1200é"));
}

#[test]
fn uuid_try_from_str_fails_only_on_bad_text() {
    let u = PentaneUUID::try_from_str("ad7d9a00c72611f08de90242ac120002").unwrap();
    assert_eq!(u.data, PentaneUUID::from_str("ad7d9a00c72611f08de90242ac120002").data);
    assert!(PentaneUUID::try_from_str("not a uuid").is_none());
    assert!(PentaneUUID::try_from_str("ad7d9a00c72611f08de90242ac12000z").is_none());
}

#[test]
fn padding_twice_and_trailing_zeros_change_nothing() {
    let uuid = PentaneUUID::from_str("00000000000000000000000000000000");
    let v = PentaneSemVer::new(0, 0, 0);
    let once = PluginInformation::new(b"Name", b"Author", uuid, v, v);
    let twice = PluginInformation::new(once.name(), once.author(), uuid, v, v);
    assert_eq!(once.name(), twice.name());
    assert_eq!(once.author(), twice.author());
    let zeros = PluginInformation::new(b"Name\0\0", b"Author\0", uuid, v, v);
    assert_eq!(once.name(), zeros.name());
    assert_eq!(once.author(), zeros.author());
}
