//! The door to the HID subsystem: the handle type and the reading of the
//! interfaces it has listed.
//!
//! Nothing in this file is proved. What it states of the `hidapi` crate is
//! believed by the rest of the library.

use crate::interface::{interface_views, HidInterfaceDescriptor, HidInterfaceView};
use vstd::prelude::*;

verus! {

/// `hidapi::HidApi`, the handle to the HID subsystem. It keeps the list of
/// interfaces of its last enumeration. The library sees it as opaque.
#[verifier::external_type_specification]
#[verifier::external_body]
pub struct ExHidApi(hidapi::HidApi);

/// The interfaces a handle has listed, in the order of its list. The list
/// is part of the handle: it changes when the handle enumerates again, not
/// when a device comes or goes.
pub uninterp spec fn hid_device_list(hid_api: hidapi::HidApi) -> Seq<HidInterfaceView>;

/// Calls `hidapi::HidApi::device_list` and copies of each `DeviceInfo` what
/// its getters `vendor_id`, `product_id`, `usage`, `usage_page` and `path`
/// (without the closing NUL) give. The contract claims that the copies are
/// the handle's list, entry by entry in its order, and that reading it does
/// not depend on anything but the handle.
#[verifier::external_body]
pub(crate) fn device_list(hid_api: &hidapi::HidApi) -> (interfaces: Vec<HidInterfaceDescriptor>)
    ensures
        interface_views(interfaces@) == hid_device_list(*hid_api),
{
    let mut interfaces = Vec::new();
    for device in hid_api.device_list() {
        interfaces.push(HidInterfaceDescriptor {
            vendor_id: device.vendor_id(),
            product_id: device.product_id(),
            usage: device.usage(),
            usage_page: device.usage_page(),
            path: device.path().to_bytes().to_vec(),
        });
    }
    interfaces
}

} // verus!
