use wgs::{FormatError, Texture, WgsData, FRAG_DEFAULT};

#[test]
fn round_trip_with_textures() {
    let mut a = WgsData::new("scene", "fn main_image() {}");
    a.add_texture(2, 1, vec![1, 2, 3, 4, 5, 6, 7, 8]);
    a.add_texture(1, 1, vec![9, 10, 11, 12]);
    let bytes = a.save();
    let b = WgsData::load(bytes.as_slice()).unwrap();
    assert_eq!(b.name(), "scene");
    assert_eq!(b.frag(), "fn main_image() {}");
    assert_eq!(b.version(), 1);
    let ts = b.textures_ref();
    assert_eq!(ts.len(), 2);
    assert_eq!(ts[0].width, 2);
    assert_eq!(ts[0].height, 1);
    assert_eq!(ts[0].data, vec![1, 2, 3, 4, 5, 6, 7, 8]);
    assert_eq!(ts[1].width, 1);
    assert_eq!(ts[1].height, 1);
    assert_eq!(ts[1].data, vec![9, 10, 11, 12]);
    assert_eq!(b.texture_count(), 2);
    assert_eq!(b.save(), bytes);
}

#[test]
fn round_trip_non_ascii_strings() {
    let a = WgsData::new("h\u{e9}llo \u{2211}", "// \u{03c0}\n");
    let bytes = a.save();
    let b = WgsData::load(bytes.as_slice()).unwrap();
    assert_eq!(b.name(), "h\u{e9}llo \u{2211}");
    assert_eq!(b.frag(), "// \u{03c0}\n");
}

#[test]
fn demo_artifact_saves_to_exact_bytes() {
    let a = WgsData::new("demo", "");
    let bytes = a.save();
    let expected: Vec<u8> = vec![
        b'd', b'e', b'm', b'o', 0x00, // name, NUL-terminated
        0x00, // texture count
        0x01, 0x00, 0x00, 0x00, // version 1, little-endian
        0x00, // empty fragment body, NUL-terminated
    ];
    assert_eq!(bytes, expected);
    let b = WgsData::load(bytes.as_slice()).unwrap();
    assert_eq!(b.name(), "demo");
    assert_eq!(b.frag(), "");
    assert_eq!(b.textures_ref().len(), 0);
}

#[test]
fn load_rejects_unterminated_name() {
    let r = WgsData::load(&[b'a', b'b', b'c']);
    assert!(matches!(r, Err(FormatError::UnexpectedEnd)));
}

#[test]
fn load_rejects_invalid_utf8_name() {
    let r = WgsData::load(&[0xFF, 0x00, 0x00, 0x01, 0x00, 0x00, 0x00, 0x00]);
    assert!(matches!(r, Err(FormatError::InvalidUtf8)));
}

#[test]
fn load_rejects_short_header() {
    // Name terminator present, but fewer than five bytes follow.
    let r = WgsData::load(&[b'a', 0x00, 0x00, 0x01, 0x00]);
    assert!(matches!(r, Err(FormatError::UnexpectedEnd)));
}

#[test]
fn load_rejects_short_texture_payload() {
    // One texture of 1x1 needs four pixel bytes; only two follow.
    let bytes: Vec<u8> = vec![
        b'a', 0x00, // name
        0x01, // texture count
        0x01, 0x00, 0x00, 0x00, // version
        0x00, // frag
        0x01, 0x00, 0x00, 0x00, // width 1
        0x01, 0x00, 0x00, 0x00, // height 1
        0xAA, 0xBB, // two of four payload bytes
    ];
    let r = WgsData::load(bytes.as_slice());
    assert!(matches!(r, Err(FormatError::UnexpectedEnd)));
}

#[test]
fn load_rejects_trailing_bytes() {
    let a = WgsData::new("demo", "");
    let mut bytes = a.save();
    bytes.push(0x42);
    let r = WgsData::load(bytes.as_slice());
    assert!(matches!(r, Err(FormatError::TrailingBytes)));
}

#[test]
fn texture_count_tracks_texture_list() {
    let mut a = WgsData::new("x", "y");
    assert_eq!(a.texture_count() as usize, a.textures_ref().len());
    a.add_texture(1, 1, vec![0; 4]);
    assert_eq!(a.texture_count() as usize, a.textures_ref().len());
    a.add_texture(2, 2, vec![0; 16]);
    assert_eq!(a.texture_count() as usize, a.textures_ref().len());
    a.change_texture(0, 1, 2, vec![0; 8]);
    assert_eq!(a.texture_count() as usize, a.textures_ref().len());
    assert_eq!(a.textures_ref()[0].height, 2);
    a.remove_texture(0);
    assert_eq!(a.texture_count() as usize, a.textures_ref().len());
    assert_eq!(a.texture_count(), 1);
    a.remove_texture(0);
    assert_eq!(a.texture_count(), 0);
}

#[test]
fn texture_construction_guard() {
    assert!(Texture::try_new(2, 2, vec![0; 15]).is_none());
    assert!(Texture::try_new(2, 2, vec![0; 17]).is_none());
    let t = Texture::try_new(2, 2, vec![7; 16]).unwrap_or_else(|| panic!("expected a texture"));
    assert_eq!(t.width, 2);
    assert_eq!(t.height, 2);
    assert_eq!(t.data.len(), 16);
}

#[test]
fn default_artifact() {
    let a = WgsData::default();
    assert_eq!(a.name(), "Untitled");
    assert_eq!(a.frag(), FRAG_DEFAULT);
    assert_eq!(a.textures_ref().len(), 0);
    assert_eq!(a.version(), 1);
}

#[test]
fn set_name_and_frag_round_trip() {
    let mut a = WgsData::new("one", "body1");
    a.set_name("two");
    a.set_frag("body2");
    let bytes = a.save();
    let b = WgsData::load(bytes.as_slice()).unwrap();
    assert_eq!(b.name(), "two");
    assert_eq!(b.frag(), "body2");
}

#[test]
fn empty_name_and_frag_round_trip() {
    let a = WgsData::new("", "");
    let bytes = a.save();
    assert_eq!(bytes, vec![0x00, 0x00, 0x01, 0x00, 0x00, 0x00, 0x00]);
    let b = WgsData::load(bytes.as_slice()).unwrap();
    assert_eq!(b.name(), "");
    assert_eq!(b.frag(), "");
}

#[test]
fn full_texture_count_round_trip() {
    let mut a = WgsData::new("full", "");
    for i in 0..255u32 {
        a.add_texture(1, 1, vec![i as u8; 4]);
    }
    assert_eq!(a.texture_count(), 255);
    let bytes = a.save();
    let b = WgsData::load(bytes.as_slice()).unwrap();
    assert_eq!(b.texture_count(), 255);
    assert_eq!(b.textures_ref().len(), 255);
    assert_eq!(b.textures_ref()[254].data, vec![254; 4]);
}

#[test]
fn load_rejects_higher_version() {
    // A layout-correct stream whose version field holds 2.
    let bytes: Vec<u8> = vec![
        b'a', 0x00, // name
        0x00, // texture count
        0x02, 0x00, 0x00, 0x00, // version 2
        0x00, // frag
    ];
    let r = WgsData::load(bytes.as_slice());
    assert!(matches!(r, Err(FormatError::UnsupportedVersion)));
    // the same stream with version 1 loads
    let bytes_v1: Vec<u8> = vec![b'a', 0x00, 0x00, 0x01, 0x00, 0x00, 0x00, 0x00];
    assert!(WgsData::load(bytes_v1.as_slice()).is_ok());
}

#[test]
fn gpu_row_stride_check() {
    let mut a = WgsData::new("wide", "");
    assert!(wgs::wgs_gpu_ok(&a));
    // a zero-height texture can be arbitrarily wide in the file format,
    // but its row would overflow the GPU's 32-bit stride
    a.add_texture(0x4000_0000, 0, vec![]);
    assert!(!wgs::wgs_gpu_ok(&a));
    a.remove_texture(0);
    a.add_texture(0x3FFF_FFFF, 0, vec![]);
    assert!(wgs::wgs_gpu_ok(&a));
}
