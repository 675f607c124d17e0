//! Hub-class control protocol: encoding of the three control requests a
//! hub session issues (hub-descriptor query, port-status query, port-power
//! feature set/clear) and decoding of their fixed-layout responses.
//!
//! All three requests are class-type control transfers; the structs below
//! carry every field of the setup packet that varies between them, and the
//! transport layer copies the fields into its own request type verbatim.

use vstd::prelude::*;

verus! {

/// Control-transfer target: the hub device itself, or one numbered port
/// (the USB "other" recipient).
#[derive(Clone, Copy, PartialEq, Eq, Structural, Debug)]
pub enum Recipient {
    Device,
    Port,
}

/// Standard request code GET_STATUS.
pub const GET_STATUS: u8 = 0;
/// Standard request code CLEAR_FEATURE.
pub const CLEAR_FEATURE: u8 = 1;
/// Standard request code SET_FEATURE.
pub const SET_FEATURE: u8 = 3;
/// Standard request code GET_DESCRIPTOR.
pub const GET_DESCRIPTOR: u8 = 6;

/// Descriptor type of a USB 2 hub descriptor.
pub const HUB_DESCRIPTOR_TYPE: u8 = 0x29;
/// Descriptor type of a superspeed (USB 3) hub descriptor.
pub const SUPERSPEED_HUB_DESCRIPTOR_TYPE: u8 = 0x2a;

/// Feature selector of the PORT_POWER port feature.
pub const PORT_POWER_FEATURE: u16 = 8;

/// Device class code of a hub.
pub const HUB_CLASS: u8 = 9;

/// Length of the hub-descriptor response buffer.
pub const HUB_DESCRIPTOR_RESPONSE_LEN: u16 = 12;
/// Length of the port-status response buffer.
pub const PORT_STATUS_RESPONSE_LEN: u16 = 4;

/// An IN (device-to-host) class control request, ready for the transport
/// layer to execute with the given timeout.
pub struct ControlInRequest {
    pub recipient: Recipient,
    pub request: u8,
    pub value: u16,
    pub index: u16,
    pub length: u16,
    pub timeout_ms: u32,
}

/// An OUT (host-to-device) class control request with its payload.
pub struct ControlOutRequest {
    pub recipient: Recipient,
    pub request: u8,
    pub value: u16,
    pub index: u16,
    pub data: Vec<u8>,
    pub timeout_ms: u32,
}

/// A device whose packed USB version word is 3.0 or higher is superspeed.
pub fn is_superspeed(usb_version: u16) -> (r: bool)
    ensures
        r == (usb_version >= 0x0300),
{
    usb_version >= 0x0300
}

/// Descriptor type a hub-descriptor query asks for: the superspeed hub
/// descriptor on a USB 3 hub, the plain hub descriptor otherwise.
pub open spec fn hub_descriptor_type(superspeed: bool) -> u8 {
    if superspeed {
        SUPERSPEED_HUB_DESCRIPTOR_TYPE
    } else {
        HUB_DESCRIPTOR_TYPE
    }
}

/// wValue of a GET_DESCRIPTOR request: descriptor type in the high byte,
/// descriptor index 0 in the low byte.
pub open spec fn hub_descriptor_value(superspeed: bool) -> u16 {
    (hub_descriptor_type(superspeed) * 0x100) as u16
}

/// Encode the hub-descriptor query: a class request to the device itself,
/// asking for the 12-byte hub descriptor with a 5-second timeout.
pub fn hub_descriptor_request(superspeed: bool) -> (r: ControlInRequest)
    ensures
        r.recipient == Recipient::Device,
        r.request == GET_DESCRIPTOR,
        r.value == hub_descriptor_value(superspeed),
        r.index == 0,
        r.length == HUB_DESCRIPTOR_RESPONSE_LEN,
        r.timeout_ms == 5000,
{
    let descriptor_type: u8 = if superspeed {
        SUPERSPEED_HUB_DESCRIPTOR_TYPE
    } else {
        HUB_DESCRIPTOR_TYPE
    };
    ControlInRequest {
        recipient: Recipient::Device,
        request: GET_DESCRIPTOR,
        value: descriptor_type as u16 * 0x100,
        index: 0,
        length: HUB_DESCRIPTOR_RESPONSE_LEN,
        timeout_ms: 5000,
    }
}

/// The port count a hub reports: byte offset 2 of the hub-descriptor
/// response.
pub fn parse_port_count(response: &[u8]) -> (r: u8)
    requires
        response@.len() >= 3,
    ensures
        r == response@[2],
{
    response[2]
}

/// Encode the port-status query: a class request to one numbered port,
/// asking for the 4-byte status word with a 1-second timeout.
pub fn port_status_request(port: u8) -> (r: ControlInRequest)
    ensures
        r.recipient == Recipient::Port,
        r.request == GET_STATUS,
        r.value == 0,
        r.index == port as u16,
        r.length == PORT_STATUS_RESPONSE_LEN,
        r.timeout_ms == 1000,
{
    ControlInRequest {
        recipient: Recipient::Port,
        request: GET_STATUS,
        value: 0,
        index: port as u16,
        length: PORT_STATUS_RESPONSE_LEN,
        timeout_ms: 1000,
    }
}

/// PORT_POWER as reported by a port-status response: bit 0 of byte 1,
/// which is bit 8 of the little-endian 16-bit port-status word. Byte 0
/// (the connect-status bits) plays no part.
pub open spec fn port_powered(response: Seq<u8>) -> bool
    recommends
        response.len() >= 2,
{
    response[1] & 1 != 0
}

/// Law: the decoded power state depends on bit 0 of byte 1 alone; two
/// responses agreeing there decode alike, whatever their other bytes and
/// in particular byte 0 hold.
pub proof fn lemma_port_status_reads_one_bit(a: Seq<u8>, b: Seq<u8>)
    requires
        a.len() >= 2,
        b.len() >= 2,
        a[1] & 1 == b[1] & 1,
    ensures
        port_powered(a) == port_powered(b),
{
}

/// Decode the PORT_POWER bit out of a port-status response.
pub fn parse_port_status(response: &[u8]) -> (r: bool)
    requires
        response@.len() >= 2,
    ensures
        r == port_powered(response@),
{
    response[1] & 1 != 0
}

/// Request code a port-power write uses: SET_FEATURE powers the port on,
/// CLEAR_FEATURE powers it off.
pub open spec fn power_request_code(enabled: bool) -> u8 {
    if enabled {
        SET_FEATURE
    } else {
        CLEAR_FEATURE
    }
}

/// PORT_POWER state after a request with code `request` is accepted by a
/// port that currently reports `powered`.
pub open spec fn power_after_request(request: u8, powered: bool) -> bool {
    if request == SET_FEATURE {
        true
    } else if request == CLEAR_FEATURE {
        false
    } else {
        powered
    }
}

/// Encode the port-power write: a class request to one numbered port with
/// feature selector PORT_POWER, an empty payload and a 5-second timeout;
/// SET_FEATURE exactly when `enabled` is true, CLEAR_FEATURE otherwise.
pub fn port_power_request(port: u8, enabled: bool) -> (r: ControlOutRequest)
    ensures
        r.recipient == Recipient::Port,
        r.request == power_request_code(enabled),
        r.value == PORT_POWER_FEATURE,
        r.index == port as u16,
        r.data@ == Seq::<u8>::empty(),
        r.timeout_ms == 5000,
        power_after_request(r.request, !enabled) == enabled,
{
    let request: u8 = if enabled {
        SET_FEATURE
    } else {
        CLEAR_FEATURE
    };
    ControlOutRequest {
        recipient: Recipient::Port,
        request,
        value: PORT_POWER_FEATURE,
        index: port as u16,
        data: Vec::new(),
        timeout_ms: 5000,
    }
}

/// Encode the write a toggle issues when the port currently reports
/// `powered`: the port-power request for the opposite state.
pub fn toggle_request(port: u8, powered: bool) -> (r: ControlOutRequest)
    ensures
        r.recipient == Recipient::Port,
        r.request == power_request_code(!powered),
        r.value == PORT_POWER_FEATURE,
        r.index == port as u16,
        r.data@ == Seq::<u8>::empty(),
        r.timeout_ms == 5000,
        power_after_request(r.request, powered) == !powered,
{
    port_power_request(port, !powered)
}

/// Law: two toggles in succession, with no external change in between,
/// restore the originally reported power state. The first toggle from
/// state `powered` issues the request code for the opposite state and
/// leaves the port at `!powered`; the second, issued from that new state,
/// brings the port back to `powered`.
pub proof fn lemma_toggle_twice_restores(powered: bool)
    ensures
        power_after_request(power_request_code(!powered), powered) == !powered,
        power_after_request(
            power_request_code(!power_after_request(power_request_code(!powered), powered)),
            power_after_request(power_request_code(!powered), powered),
        ) == powered,
{
}

} // verus!
