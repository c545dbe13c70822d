//! Tests for the NUL-terminated text decoding and the device identity query.

use media_topology::cstr::{c_str_to_str, try_c_str_to_str};
use media_topology::device::MediaDeviceInfo;
use media_topology::raw::RawDeviceInfo;

fn field<const N: usize>(text: &str) -> [u8; N] {
    let mut bytes = [0u8; N];
    let src = text.as_bytes();
    assert!(src.len() < N);
    let mut i = 0;
    while i < src.len() {
        bytes[i] = src[i];
        i += 1;
    }
    bytes
}

fn sample_raw_device_info() -> RawDeviceInfo {
    RawDeviceInfo {
        driver: field("uvcvideo"),
        model: field("USB Camera"),
        serial: field("SN0001"),
        bus_info: field("usb-0000:00:14.0-1"),
        media_version: 0x0005_0010,
        hw_revision: 0x0100,
        driver_version: 0x0005_0011,
    }
}

#[test]
fn driver_field_decodes() {
    let bytes: [u8; 16] = field("uvcvideo");
    assert_eq!(try_c_str_to_str(&bytes), Some(String::from("uvcvideo")));
}

#[test]
fn all_zero_field_decodes_to_empty_string() {
    let bytes = [0u8; 16];
    assert_eq!(try_c_str_to_str(&bytes), Some(String::new()));
}

#[test]
fn missing_nul_is_rejected() {
    let bytes = [b'a'; 16];
    assert_eq!(try_c_str_to_str(&bytes), None);
}

#[test]
fn invalid_utf8_is_rejected() {
    let bytes: [u8; 4] = [0xff, 0xfe, 0x00, 0x00];
    assert_eq!(try_c_str_to_str(&bytes), None);
}

#[test]
fn bytes_after_nul_are_ignored() {
    let bytes: [u8; 6] = [b'a', b'b', 0x00, 0xff, 0xfe, 0xfd];
    assert_eq!(try_c_str_to_str(&bytes), Some(String::from("ab")));
}

#[test]
fn multibyte_text_decodes() {
    // "café" is five bytes of UTF-8 for four characters.
    let bytes: [u8; 8] = [0x63, 0x61, 0x66, 0xc3, 0xa9, 0x00, 0x00, 0x00];
    assert_eq!(try_c_str_to_str(&bytes), Some(String::from("café")));
}

#[test]
fn c_str_to_str_reads_prefix() {
    let bytes: [u8; 16] = field("imx219");
    assert_eq!(c_str_to_str(&bytes), String::from("imx219"));
}

#[test]
fn device_info_decodes_all_fields() {
    let raw = sample_raw_device_info();
    let info = MediaDeviceInfo::from_ffi(&raw);
    assert_eq!(info.driver, "uvcvideo");
    assert_eq!(info.model, "USB Camera");
    assert_eq!(info.serial, "SN0001");
    assert_eq!(info.bus_info, "usb-0000:00:14.0-1");
    assert_eq!(info.media_version, 0x0005_0010);
    assert_eq!(info.hw_version, 0x0100);
    assert_eq!(info.driver_version, 0x0005_0011);
}

#[test]
fn try_from_ffi_matches_from_ffi() {
    let raw = sample_raw_device_info();
    let info = MediaDeviceInfo::try_from_ffi(&raw).unwrap();
    assert_eq!(info, MediaDeviceInfo::from_ffi(&raw));
}

#[test]
fn malformed_device_info_is_reported() {
    let mut raw = sample_raw_device_info();
    raw.serial = [b'x'; 40];
    assert_eq!(MediaDeviceInfo::try_from_ffi(&raw), None);
}
