use luma_core::sysconf::{
    read_and_parse, AspectRatio, Item, RefreshRate, Scan, Sysconf, SysconfError, SYSCONF_SIZE,
};

fn item(kind: u8, name: &str, value: &[u8]) -> Vec<u8> {
    let mut out = vec![(kind << 5) | ((name.len() as u8 - 1) & 0x1f)];
    out.extend_from_slice(name.as_bytes());
    out.extend_from_slice(value);
    out
}

fn file(items: &[Vec<u8>]) -> Vec<u8> {
    let mut out = b"SCv0".to_vec();
    out.extend_from_slice(&(items.len() as u16).to_be_bytes());
    let mut offset = 6 + 2 * items.len();
    for it in items {
        out.extend_from_slice(&(offset as u16).to_be_bytes());
        offset += it.len();
    }
    for it in items {
        out.extend_from_slice(it);
    }
    out
}

#[test]
fn video_preferences() {
    let data = file(&[item(3, "IPL.AR", &[1]), item(3, "IPL.PGS", &[0]), item(3, "IPL.E60", &[0])]);
    let sc = Sysconf::parse(&data).unwrap();
    assert_eq!(sc.len(), 3);
    assert_eq!(sc.aspect_ratio(), AspectRatio::A16_9);
    assert_eq!(sc.progressive(), Scan::Interlaced);
    assert_eq!(sc.refresh_rate(), RefreshRate::R50);
    let data = file(&[item(3, "IPL.AR", &[0]), item(3, "IPL.PGS", &[2]), item(3, "IPL.E60", &[1])]);
    let sc = Sysconf::parse(&data).unwrap();
    assert_eq!(sc.aspect_ratio(), AspectRatio::A4_3);
    assert_eq!(sc.progressive(), Scan::Progressive);
    assert_eq!(sc.refresh_rate(), RefreshRate::R60);
}

#[test]
fn missing_or_non_byte_settings() {
    let sc = Sysconf::parse(&file(&[])).unwrap();
    assert_eq!(sc.len(), 0);
    assert_eq!(sc.aspect_ratio(), AspectRatio::Unknown);
    assert_eq!(sc.progressive(), Scan::Unknown);
    assert_eq!(sc.refresh_rate(), RefreshRate::R60);
    let sc = Sysconf::parse(&file(&[item(4, "IPL.AR", &[0, 0]), item(7, "IPL.E60", &[0])])).unwrap();
    assert_eq!(sc.aspect_ratio(), AspectRatio::Unknown);
    assert_eq!(sc.refresh_rate(), RefreshRate::R60);
}

#[test]
fn later_duplicate_wins() {
    let data = file(&[item(3, "IPL.AR", &[0]), item(3, "IPL.AR", &[1])]);
    let sc = Sysconf::parse(&data).unwrap();
    assert_eq!(sc.aspect_ratio(), AspectRatio::A16_9);
}

#[test]
fn every_kind_decodes() {
    let data = file(&[
        item(1, "BIG", &[0, 1, 7, 8]),
        item(2, "SMALL", &[2, 4, 5, 6]),
        item(3, "B", &[0x7f]),
        item(4, "S", &[0x12, 0x34]),
        item(5, "L", &[0x12, 0x34, 0x56, 0x78]),
        item(6, "LL", &[1, 2, 3, 4, 5, 6, 7, 8]),
        item(7, "T", &[9]),
    ]);
    let sc = Sysconf::parse(&data).unwrap();
    assert!(matches!(sc.get(b"BIG"), Some(Item::BigArray(v)) if v == &vec![7, 8]));
    assert!(matches!(sc.get(b"SMALL"), Some(Item::SmallArray(v)) if v == &vec![4, 5, 6]));
    assert!(matches!(sc.get(b"B"), Some(Item::Byte(0x7f))));
    assert!(matches!(sc.get(b"S"), Some(Item::Short(0x1234))));
    assert!(matches!(sc.get(b"L"), Some(Item::Long(0x1234_5678))));
    assert!(matches!(sc.get(b"LL"), Some(Item::LongLong(0x0102_0304_0506_0708))));
    assert!(matches!(sc.get(b"T"), Some(Item::Bool(true))));
    assert!(sc.get(b"NONE").is_none());
}

#[test]
fn bad_magic_is_refused() {
    let mut data = file(&[item(3, "IPL.AR", &[1])]);
    data[3] = b'1';
    assert_eq!(Sysconf::parse(&data).err(), Some(SysconfError::BadMagic));
    assert_eq!(Sysconf::parse(b"SC").err(), Some(SysconfError::BadMagic));
    assert_eq!(read_and_parse(&data).err(), Some(-103));
}

#[test]
fn truncated_file_is_refused() {
    assert_eq!(Sysconf::parse(b"SCv0\x00").err(), Some(SysconfError::Truncated));
    assert_eq!(Sysconf::parse(b"SCv0\x00\x02\x00\x0a").err(), Some(SysconfError::Truncated));
    let mut data = file(&[item(5, "L", &[1, 2, 3, 4])]);
    data.pop();
    assert_eq!(Sysconf::parse(&data).err(), Some(SysconfError::Truncated));
    let data = file(&[item(1, "BIG", &[0, 9, 1])]);
    assert_eq!(Sysconf::parse(&data).err(), Some(SysconfError::Truncated));
}

#[test]
fn unknown_kind_is_refused() {
    let data = file(&[item(3, "A", &[1]), item(0, "B", &[1])]);
    assert_eq!(Sysconf::parse(&data).err(), Some(SysconfError::UnknownKind));
}

#[test]
fn non_utf8_name_is_refused() {
    let mut data = file(&[item(3, "AB", &[1])]);
    let at = data.len() - 3;
    data[at] = 0xff;
    assert_eq!(Sysconf::parse(&data).err(), Some(SysconfError::BadName));
    assert_eq!(read_and_parse(&data).err(), Some(-103));
}

#[test]
fn full_size_file_parses() {
    let mut data = file(&[item(3, "IPL.PGS", &[1])]);
    data.resize(SYSCONF_SIZE, 0);
    let sc = read_and_parse(&data).unwrap();
    assert_eq!(sc.progressive(), Scan::Progressive);
}

#[test]
fn labels() {
    assert_eq!(AspectRatio::A4_3.label(), "4:3");
    assert_eq!(AspectRatio::A16_9.label(), "16:9");
    assert_eq!(Scan::Progressive.label(), "progressive");
    assert_eq!(RefreshRate::R50.label(), "50 Hz");
    assert_eq!(RefreshRate::R60.label(), "60 Hz");
}
