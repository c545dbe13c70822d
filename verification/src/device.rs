//! The device identity query's value type and its decoder.

use vstd::prelude::*;

use crate::cstr::{c_str_to_str, cstr_decodes_to, cstr_ok, try_c_str_to_str};
use crate::raw::RawDeviceInfo;

verus! {

/// Identity and version metadata of a media device, decoded from the
/// kernel's identity record.
#[derive(Debug, PartialEq, Eq)]
pub struct MediaDeviceInfo {
    pub driver: String,
    pub model: String,
    pub serial: String,
    pub bus_info: String,
    pub media_version: u32,
    pub hw_version: u32,
    pub driver_version: u32,
}

/// True when every text field of the identity record is NUL-terminated
/// valid UTF-8, as the driver contract guarantees.
pub open spec fn device_info_ok(raw: RawDeviceInfo) -> bool {
    &&& cstr_ok(raw.driver@)
    &&& cstr_ok(raw.model@)
    &&& cstr_ok(raw.serial@)
    &&& cstr_ok(raw.bus_info@)
}

/// Relates a raw identity record to its decoded form: each text field is
/// read up to its NUL terminator and the version numbers carry over.
pub open spec fn device_info_decodes(raw: RawDeviceInfo, d: MediaDeviceInfo) -> bool {
    &&& cstr_decodes_to(raw.driver@, d.driver@)
    &&& cstr_decodes_to(raw.model@, d.model@)
    &&& cstr_decodes_to(raw.serial@, d.serial@)
    &&& cstr_decodes_to(raw.bus_info@, d.bus_info@)
    &&& d.media_version == raw.media_version
    &&& d.hw_version == raw.hw_revision
    &&& d.driver_version == raw.driver_version
}

impl MediaDeviceInfo {
    /// Decode the kernel's identity record.  The driver contract makes the
    /// text fields well-formed; a record that breaks it is ruled out here.
    pub fn from_ffi(info: &RawDeviceInfo) -> (r: MediaDeviceInfo)
        requires
            device_info_ok(*info),
        ensures
            device_info_decodes(*info, r),
    {
        MediaDeviceInfo {
            driver: c_str_to_str(info.driver.as_slice()),
            model: c_str_to_str(info.model.as_slice()),
            serial: c_str_to_str(info.serial.as_slice()),
            bus_info: c_str_to_str(info.bus_info.as_slice()),
            media_version: info.media_version,
            hw_version: info.hw_revision,
            driver_version: info.driver_version,
        }
    }

    /// Decode the kernel's identity record, reporting a record whose text
    /// fields are malformed -- a breach of the driver contract -- as `None`.
    pub fn try_from_ffi(info: &RawDeviceInfo) -> (r: Option<MediaDeviceInfo>)
        ensures
            (r is Some) == device_info_ok(*info),
            r matches Some(d) ==> device_info_decodes(*info, d),
    {
        let driver = try_c_str_to_str(info.driver.as_slice());
        let model = try_c_str_to_str(info.model.as_slice());
        let serial = try_c_str_to_str(info.serial.as_slice());
        let bus_info = try_c_str_to_str(info.bus_info.as_slice());
        match (driver, model, serial, bus_info) {
            (Some(driver), Some(model), Some(serial), Some(bus_info)) => Some(
                MediaDeviceInfo {
                    driver,
                    model,
                    serial,
                    bus_info,
                    media_version: info.media_version,
                    hw_version: info.hw_revision,
                    driver_version: info.driver_version,
                },
            ),
            _ => None,
        }
    }
}

} // verus!
