use svbony::decode::{
    decode_image_types, decode_text, take_before_sentinel, RawCameraInfo, RawCameraProperty,
    RawCameraPropertyEx, RawControlCaps,
};
use svbony::structs::{SVBCameraInfo, SVBCameraProperty, SVBCameraPropertyEx, SVBControlCaps};
use svbony::types::{SVBBayerPattern, SVBControlType, SVBImageType};

fn field(text: &[u8], size: usize) -> Vec<u8> {
    let mut bytes = text.to_vec();
    bytes.resize(size, 0);
    bytes
}

#[test]
fn text_fields_lose_their_zero_padding() {
    assert_eq!(decode_text(field(b"SVBONY SV305", 32)), Some(String::from("SVBONY SV305")));
    assert_eq!(decode_text(field(b"", 32)), Some(String::new()));
    assert_eq!(decode_text(Vec::new()), Some(String::new()));
    assert_eq!(decode_text(b"USB3.0".to_vec()), Some(String::from("USB3.0")));
    assert_eq!(decode_text(b"\0\0USB\0".to_vec()), Some(String::from("USB")));
}

#[test]
fn white_space_is_trimmed_before_the_zeros() {
    assert_eq!(decode_text(b"  Gain\t\n".to_vec()), Some(String::from("Gain")));
    assert_eq!(decode_text(b"  Gain \0\0".to_vec()), Some(String::from("Gain ")));
    assert_eq!(decode_text(b"\0 Gain".to_vec()), Some(String::from(" Gain")));
    assert_eq!(decode_text(b"a\0b".to_vec()), Some(String::from("a\0b")));
    assert_eq!(decode_text(b" \t\r\n".to_vec()), Some(String::new()));
    assert_eq!(
        decode_text("\u{a0}\u{3000}Exposure\u{2009}\u{85}".as_bytes().to_vec()),
        Some(String::from("Exposure"))
    );
    assert_eq!(
        decode_text("\u{200b}Gamma".as_bytes().to_vec()),
        Some(String::from("\u{200b}Gamma"))
    );
}

#[test]
fn text_that_is_not_utf8_is_no_text() {
    assert_eq!(decode_text(vec![0xff, 0xfe, 0x00]), None);
    assert_eq!(decode_text(vec![b'a', 0x80]), None);
    assert_eq!(decode_text(vec![0xc3]), None);
    assert_eq!(decode_text(vec![0xc3, 0xa9]), Some(String::from("\u{e9}")));
}

#[test]
fn lists_end_at_their_sentinel() {
    assert_eq!(take_before_sentinel(&vec![1, 2, 4, 0, 8, 0], 0), vec![1, 2, 4]);
    assert_eq!(take_before_sentinel(&vec![0, 1, 2], 0), Vec::<i32>::new());
    assert_eq!(take_before_sentinel(&vec![1, 2], 0), vec![1, 2]);
    assert_eq!(take_before_sentinel(&Vec::new(), 0), Vec::<i32>::new());
    assert_eq!(take_before_sentinel(&vec![0, 5, -1, 0], -1), vec![0, 5]);
}

#[test]
fn image_type_lists_need_every_code_to_be_known() {
    assert_eq!(
        decode_image_types(&vec![0, 5, 10]),
        Some(vec![SVBImageType::SVBImageRaw8, SVBImageType::SVBImageRaw16, SVBImageType::SVBImageY16])
    );
    assert_eq!(decode_image_types(&Vec::new()), Some(Vec::new()));
    assert_eq!(decode_image_types(&vec![0, 1, 5]), None);
    assert_eq!(decode_image_types(&vec![13]), None);
}

#[test]
fn camera_info_reads_its_text_fields() {
    let raw = RawCameraInfo {
        friendly_name: field(b"SVBONY SV305 PRO", 32),
        serial_number: field(b"01234ABCD", 32),
        port_type: field(b"USB3.0", 32),
        device_id: 0x305,
        camera_id: 7,
    };
    let info = SVBCameraInfo::from_raw(raw).unwrap();
    assert_eq!(info.friendly_name, "SVBONY SV305 PRO");
    assert_eq!(info.serial_number, "01234ABCD");
    assert_eq!(info.port_type, "USB3.0");
    assert_eq!(info.device_id, 0x305);
    assert_eq!(info.camera_id, 7);
    let copy = info.clone();
    assert_eq!(copy.friendly_name, info.friendly_name);
    assert_eq!(copy.camera_id, 7);

    let broken = RawCameraInfo {
        friendly_name: field(b"SVBONY", 32),
        serial_number: vec![0xff; 32],
        port_type: field(b"USB3.0", 32),
        device_id: 1,
        camera_id: 2,
    };
    assert!(SVBCameraInfo::from_raw(broken).is_none());
}

fn raw_property() -> RawCameraProperty {
    RawCameraProperty {
        max_height: 1080,
        max_width: 1920,
        is_color_cam: 1,
        bayer_pattern: 2,
        supported_bins: vec![1, 2, 4, 0, 0, 0, 0, 0, 0, 0, 0, 0, 0, 0, 0, 0],
        supported_video_format: vec![0, 5, 6, 10, -1, 0, 0, 0],
        max_bit_depth: 12,
        is_triggerable: 0,
    }
}

#[test]
fn camera_property_reads_lists_up_to_their_sentinels() {
    let property = SVBCameraProperty::from_raw(&raw_property()).unwrap();
    assert_eq!(property.max_height, 1080);
    assert_eq!(property.max_width, 1920);
    assert!(property.is_color_cam);
    assert_eq!(property.bayer_pattern, SVBBayerPattern::SVBBayerGr);
    assert_eq!(property.supported_bins, vec![1, 2, 4]);
    assert_eq!(
        property.supported_video_format,
        vec![
            SVBImageType::SVBImageRaw8,
            SVBImageType::SVBImageRaw16,
            SVBImageType::SVBImageY8,
            SVBImageType::SVBImageY16,
        ]
    );
    assert_eq!(property.max_bit_depth, 12);
    assert!(!property.is_triggerable);
    let copy = property.clone();
    assert_eq!(copy.supported_bins, property.supported_bins);
    assert_eq!(copy.supported_video_format, property.supported_video_format);
}

#[test]
fn camera_property_with_unknown_codes_is_not_read() {
    let mut raw = raw_property();
    raw.bayer_pattern = 4;
    assert!(SVBCameraProperty::from_raw(&raw).is_none());
    let mut raw = raw_property();
    raw.supported_video_format = vec![0, 1, -1, 0, 0, 0, 0, 0];
    assert!(SVBCameraProperty::from_raw(&raw).is_none());
    let mut raw = raw_property();
    raw.supported_video_format = vec![0, -1, 1, 0, 0, 0, 0, 0];
    assert_eq!(
        SVBCameraProperty::from_raw(&raw).unwrap().supported_video_format,
        vec![SVBImageType::SVBImageRaw8]
    );
}

#[test]
fn long_values_keep_their_low_word() {
    let mut raw = raw_property();
    raw.max_width = 0x1_0000_0780;
    raw.max_height = -1;
    raw.is_color_cam = 0;
    raw.is_triggerable = -5;
    let property = SVBCameraProperty::from_raw(&raw).unwrap();
    assert_eq!(property.max_width, 1920);
    assert_eq!(property.max_height, -1);
    assert!(!property.is_color_cam);
    assert!(property.is_triggerable);
}

#[test]
fn extended_property_reads_its_flag() {
    assert!(SVBCameraPropertyEx::from_raw(&RawCameraPropertyEx { support_control_temp: 1 }).support_control_temp);
    assert!(!SVBCameraPropertyEx::from_raw(&RawCameraPropertyEx { support_control_temp: 0 }).support_control_temp);
}

fn raw_caps() -> RawControlCaps {
    RawControlCaps {
        name: field(b"Exposure", 64),
        description: field(b"Exposure time (us)", 128),
        max_value: 2_000_000_000,
        min_value: 30,
        default_value: 30_000,
        is_auto_supported: 1,
        is_writeable: 1,
        control_type: 1,
    }
}

#[test]
fn control_descriptor_reads_all_its_fields() {
    let caps = SVBControlCaps::from_raw(raw_caps()).unwrap();
    assert_eq!(caps.name, "Exposure");
    assert_eq!(caps.description, "Exposure time (us)");
    assert_eq!(caps.max_value, 2_000_000_000);
    assert_eq!(caps.min_value, 30);
    assert_eq!(caps.default_value, 30_000);
    assert!(caps.is_auto_supported);
    assert!(caps.is_writeable);
    assert_eq!(caps.control_type, SVBControlType::SVBExposure);
    let copy = caps.clone();
    assert_eq!(copy.name, caps.name);
    assert_eq!(copy.max_value, caps.max_value);
}

#[test]
fn control_descriptor_of_an_unknown_kind_is_not_read() {
    let mut raw = raw_caps();
    raw.control_type = 20;
    assert!(SVBControlCaps::from_raw(raw).is_none());
    let mut raw = raw_caps();
    raw.description = vec![0xc0, 0x80];
    assert!(SVBControlCaps::from_raw(raw).is_none());
}
