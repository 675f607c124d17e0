//! Child display names: lookups in the compiled-in usb.ids product
//! database, and the fallback chain the topology resolver uses when the
//! database has no entry.

use vstd::prelude::*;
use vstd::string::StringExecFns;

verus! {

/// Name the usb.ids database keeps for a product, by vendor and product
/// id; `None` when the database has no entry for that pair.
pub uninterp spec fn device_db_name(vendor_id: u16, product_id: u16) -> Option<Seq<char>>;

/// Name the usb.ids database keeps for a vendor, by vendor id; `None`
/// when the database has no entry for that id.
pub uninterp spec fn vendor_db_name(vendor_id: u16) -> Option<Seq<char>>;

/// Relies on usb_ids::Device::from_vid_pid and usb_ids::Device::name: a
/// lookup in the usb.ids database compiled into the crate, a function of
/// the two ids alone.
#[verifier::external_body]
fn lookup_device_name(vendor_id: u16, product_id: u16) -> (r: Option<String>)
    ensures
        r.deep_view() == device_db_name(vendor_id, product_id),
{
    usb_ids::Device::from_vid_pid(vendor_id, product_id).map(|d| d.name().to_owned())
}

/// Relies on usb_ids::Vendor::from_id and usb_ids::Vendor::name: a lookup
/// in the usb.ids database compiled into the crate, a function of the
/// vendor id alone.
#[verifier::external_body]
fn lookup_vendor_name(vendor_id: u16) -> (r: Option<String>)
    ensures
        r.deep_view() == vendor_db_name(vendor_id),
{
    <usb_ids::Vendor as usb_ids::FromId<u16>>::from_id(vendor_id).map(|v| v.name().to_owned())
}

/// Vendor half of the fallback label when the database knows the vendor
/// but not the product.
pub open spec fn vendor_label(vendor_id: u16) -> Seq<char> {
    match vendor_db_name(vendor_id) {
        Some(name) => name,
        None => "[unknown vendor]"@,
    }
}

/// Display name of a child device: the database's product name when it
/// has one; else "{product string} from {vendor label}" when the device
/// reported a product string; else an unknown-device sentinel.
pub open spec fn child_name(
    vendor_id: u16,
    product_id: u16,
    product_string: Option<Seq<char>>,
) -> Seq<char> {
    match device_db_name(vendor_id, product_id) {
        Some(name) => name,
        None => match product_string {
            Some(product) => product + " from "@ + vendor_label(vendor_id),
            None => "<unknown>"@,
        },
    }
}

/// Resolve the display name of a child device from its ids and its
/// optional product descriptor string.
pub fn child_display_name(
    vendor_id: u16,
    product_id: u16,
    product_string: &Option<String>,
) -> (r: String)
    ensures
        r@ == child_name(vendor_id, product_id, product_string.deep_view()),
{
    match lookup_device_name(vendor_id, product_id) {
        Some(name) => name,
        None => match product_string {
            Some(product) => {
                let mut name = product.clone();
                name.append(" from ");
                match lookup_vendor_name(vendor_id) {
                    Some(vendor) => name.append(vendor.as_str()),
                    None => name.append("[unknown vendor]"),
                }
                name
            },
            None => "<unknown>".to_owned(),
        },
    }
}

} // verus!
