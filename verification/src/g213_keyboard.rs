//! Device model for the Logitech G213 keyboard: identity constants, the
//! region model, the speed range, the 20-byte command frames, the device
//! locator and the transport session that exchanges one frame.

use vstd::prelude::*;

use crate::errors::G213Error;
use crate::usb;
use crate::usb::{UsbDevice, UsbHandle};

verus! {

/// USB vendor id of Logitech devices.
pub const LOGITECH: u16 = 0x046d;

/// USB product id of the G213 keyboard.
pub const G213: u16 = 0xc336;

/// Number of independently colourable keyboard regions.
pub const NUM_REGIONS: u8 = 5;

/// Slowest effect speed the protocol supports.
pub const MIN_SPEED: u16 = 32;

/// Fastest effect speed the protocol supports (the field is 16 bits wide).
pub const MAX_SPEED: u16 = 65535;

/// Length in bytes of every command frame.
pub const CMD_LEN: usize = 20;

/// The speed value that is actually encoded for a requested speed:
/// the request clamped into `[MIN_SPEED, MAX_SPEED]`.
pub open spec fn spec_limit_speed(speed: u16) -> u16 {
    if speed < MIN_SPEED {
        MIN_SPEED
    } else {
        speed
    }
}

/// Clamp a requested effect speed into the supported range.
pub fn limit_speed(speed: u16) -> (r: u16)
    ensures
        r == spec_limit_speed(speed),
        MIN_SPEED <= r <= MAX_SPEED,
{
    if speed < MIN_SPEED {
        MIN_SPEED
    } else {
        speed
    }
}

/// Clamping is idempotent and always lands in the supported range.
pub proof fn lemma_limit_speed_idempotent(speed: u16)
    ensures
        spec_limit_speed(spec_limit_speed(speed)) == spec_limit_speed(speed),
        MIN_SPEED <= spec_limit_speed(speed) <= MAX_SPEED,
{
}

/// One of the keyboard's five lighting regions, numbered 1 to `NUM_REGIONS`
/// at the user boundary.
#[derive(Clone, Copy, PartialEq, Eq, Structural, Debug)]
pub enum KeyboardRegions {
    One,
    Two,
    Three,
    Four,
    Five,
}

/// Whether a user-supplied region number is valid: 1 to `NUM_REGIONS`.
pub open spec fn spec_valid_region(number: u8) -> bool {
    1 <= number <= NUM_REGIONS
}

/// The protocol byte code of a region, by its 1-based number.
pub open spec fn spec_region_code(region: KeyboardRegions) -> u8 {
    match region {
        KeyboardRegions::One => 1,
        KeyboardRegions::Two => 2,
        KeyboardRegions::Three => 3,
        KeyboardRegions::Four => 4,
        KeyboardRegions::Five => 5,
    }
}

impl KeyboardRegions {
    /// The region a 1-based user number names, or `None` outside
    /// `[1, NUM_REGIONS]`.
    pub fn from_number(number: u8) -> (r: Option<KeyboardRegions>)
        ensures
            r is Some <==> spec_valid_region(number),
            r matches Some(region) ==> spec_region_code(region) == number,
    {
        match number {
            1 => Some(KeyboardRegions::One),
            2 => Some(KeyboardRegions::Two),
            3 => Some(KeyboardRegions::Three),
            4 => Some(KeyboardRegions::Four),
            5 => Some(KeyboardRegions::Five),
            _ => None,
        }
    }

    /// The protocol byte code this region is addressed by on the wire.
    pub fn code(&self) -> (r: u8)
        ensures
            r == spec_region_code(*self),
            1 <= r <= NUM_REGIONS,
    {
        match self {
            KeyboardRegions::One => 1,
            KeyboardRegions::Two => 2,
            KeyboardRegions::Three => 3,
            KeyboardRegions::Four => 4,
            KeyboardRegions::Five => 5,
        }
    }
}

/// A colour value is a 24-bit RGB triple.
pub open spec fn spec_valid_colour(colour: u32) -> bool {
    colour <= 0xffffff
}

/// The red byte of a 24-bit colour.
pub open spec fn spec_red_byte(colour: u32) -> u8 {
    ((colour >> 16) & 0xff) as u8
}

/// The green byte of a 24-bit colour.
pub open spec fn spec_green_byte(colour: u32) -> u8 {
    ((colour >> 8) & 0xff) as u8
}

/// The blue byte of a 24-bit colour.
pub open spec fn spec_blue_byte(colour: u32) -> u8 {
    (colour & 0xff) as u8
}

/// The 20-byte static-colour frame: header, region marker (0 means the whole
/// keyboard), the static opcode, the RGB bytes and fixed suffix padding.
pub open spec fn spec_static_frame(marker: u8, colour: u32) -> Seq<u8> {
    seq![
        0x11u8,
        0xffu8,
        0x0cu8,
        0x3au8,
        marker,
        0x01u8,
        spec_red_byte(colour),
        spec_green_byte(colour),
        spec_blue_byte(colour),
        0x02u8,
        0u8,
        0u8,
        0u8,
        0u8,
        0u8,
        0u8,
        0u8,
        0u8,
        0u8,
        0u8,
    ]
}

/// The 20-byte breathe frame: header, the breathe opcode, the RGB bytes,
/// the big-endian speed, a fixed duty byte and padding.
pub open spec fn spec_breathe_frame(colour: u32, speed: u16) -> Seq<u8> {
    seq![
        0x11u8,
        0xffu8,
        0x0cu8,
        0x3au8,
        0x00u8,
        0x02u8,
        spec_red_byte(colour),
        spec_green_byte(colour),
        spec_blue_byte(colour),
        (speed >> 8) as u8,
        (speed & 0xff) as u8,
        0x00u8,
        0x64u8,
        0u8,
        0u8,
        0u8,
        0u8,
        0u8,
        0u8,
        0u8,
    ]
}

/// The 20-byte cycle frame: header, the cycle opcode, a wildcard colour,
/// the big-endian speed, a fixed duty byte and padding.
pub open spec fn spec_cycle_frame(speed: u16) -> Seq<u8> {
    seq![
        0x11u8,
        0xffu8,
        0x0cu8,
        0x3au8,
        0x00u8,
        0x03u8,
        0xffu8,
        0xffu8,
        0xffu8,
        0x00u8,
        0x00u8,
        (speed >> 8) as u8,
        (speed & 0xff) as u8,
        0x64u8,
        0u8,
        0u8,
        0u8,
        0u8,
        0u8,
        0u8,
    ]
}

fn red_byte(colour: u32) -> (r: u8)
    ensures
        r == spec_red_byte(colour),
{
    proof {
        assert((colour >> 16) & 0xff < 256) by (bit_vector);
    }
    ((colour >> 16) & 0xff) as u8
}

fn green_byte(colour: u32) -> (r: u8)
    ensures
        r == spec_green_byte(colour),
{
    proof {
        assert((colour >> 8) & 0xff < 256) by (bit_vector);
    }
    ((colour >> 8) & 0xff) as u8
}

fn blue_byte(colour: u32) -> (r: u8)
    ensures
        r == spec_blue_byte(colour),
{
    proof {
        assert(colour & 0xff < 256) by (bit_vector);
    }
    (colour & 0xff) as u8
}

fn speed_high_byte(speed: u16) -> (r: u8)
    ensures
        r == (speed >> 8) as u8,
{
    proof {
        assert(speed >> 8 < 256) by (bit_vector);
    }
    (speed >> 8) as u8
}

fn speed_low_byte(speed: u16) -> (r: u8)
    ensures
        r == (speed & 0xff) as u8,
{
    proof {
        assert(speed & 0xff < 256) by (bit_vector);
    }
    (speed & 0xff) as u8
}

/// Build the static-colour frame for the given region marker
/// (0 addresses the whole keyboard).
pub fn static_frame(marker: u8, colour: u32) -> (r: Vec<u8>)
    ensures
        r@ == spec_static_frame(marker, colour),
        r@.len() == CMD_LEN,
{
    let r: Vec<u8> = vec![
        0x11u8,
        0xffu8,
        0x0cu8,
        0x3au8,
        marker,
        0x01u8,
        red_byte(colour),
        green_byte(colour),
        blue_byte(colour),
        0x02u8,
        0u8,
        0u8,
        0u8,
        0u8,
        0u8,
        0u8,
        0u8,
        0u8,
        0u8,
        0u8,
    ];
    proof {
        assert(r@ =~= spec_static_frame(marker, colour));
    }
    r
}

/// Build the breathe frame for a colour and an already-clamped speed.
pub fn breathe_frame(colour: u32, speed: u16) -> (r: Vec<u8>)
    ensures
        r@ == spec_breathe_frame(colour, speed),
        r@.len() == CMD_LEN,
{
    let r: Vec<u8> = vec![
        0x11u8,
        0xffu8,
        0x0cu8,
        0x3au8,
        0x00u8,
        0x02u8,
        red_byte(colour),
        green_byte(colour),
        blue_byte(colour),
        speed_high_byte(speed),
        speed_low_byte(speed),
        0x00u8,
        0x64u8,
        0u8,
        0u8,
        0u8,
        0u8,
        0u8,
        0u8,
        0u8,
    ];
    proof {
        assert(r@ =~= spec_breathe_frame(colour, speed));
    }
    r
}

/// Build the cycle frame for an already-clamped speed.
pub fn cycle_frame(speed: u16) -> (r: Vec<u8>)
    ensures
        r@ == spec_cycle_frame(speed),
        r@.len() == CMD_LEN,
{
    let r: Vec<u8> = vec![
        0x11u8,
        0xffu8,
        0x0cu8,
        0x3au8,
        0x00u8,
        0x03u8,
        0xffu8,
        0xffu8,
        0xffu8,
        0x00u8,
        0x00u8,
        speed_high_byte(speed),
        speed_low_byte(speed),
        0x64u8,
        0u8,
        0u8,
        0u8,
        0u8,
        0u8,
        0u8,
    ];
    proof {
        assert(r@ =~= spec_cycle_frame(speed));
    }
    r
}

/// Every per-region frame carries the region's protocol code as its marker
/// byte and the requested colour as its RGB bytes.
pub proof fn lemma_region_frame_fields(region: KeyboardRegions, colour: u32)
    ensures
        spec_static_frame(spec_region_code(region), colour)[4] == spec_region_code(region),
        1 <= spec_static_frame(spec_region_code(region), colour)[4] <= NUM_REGIONS,
        spec_static_frame(spec_region_code(region), colour)[6] == spec_red_byte(colour),
        spec_static_frame(spec_region_code(region), colour)[7] == spec_green_byte(colour),
        spec_static_frame(spec_region_code(region), colour)[8] == spec_blue_byte(colour),
{
}

/// The colour a frame's RGB subfield spells, read back big-endian.
pub open spec fn spec_frame_colour(frame: Seq<u8>) -> u32
    recommends
        frame.len() == CMD_LEN,
{
    ((frame[6] as u32) << 16) | ((frame[7] as u32) << 8) | (frame[8] as u32)
}

/// The RGB subfield of an encoded static frame round-trips every
/// 24-bit colour exactly.
pub proof fn lemma_colour_round_trip(marker: u8, colour: u32)
    requires
        spec_valid_colour(colour),
    ensures
        spec_frame_colour(spec_static_frame(marker, colour)) == colour,
{
    assert(colour <= 0xffffff ==> ((((colour >> 16) & 0xff) as u8 as u32) << 16) | (
    (((colour >> 8) & 0xff) as u8 as u32) << 8) | ((colour & 0xff) as u8 as u32) == colour)
        by (bit_vector);
}

/// The breathe frame round-trips the colour as well.
pub proof fn lemma_breathe_colour_round_trip(colour: u32, speed: u16)
    requires
        spec_valid_colour(colour),
    ensures
        spec_frame_colour(spec_breathe_frame(colour, speed)) == colour,
{
    assert(colour <= 0xffffff ==> ((((colour >> 16) & 0xff) as u8 as u32) << 16) | (
    (((colour >> 8) & 0xff) as u8 as u32) << 8) | ((colour & 0xff) as u8 as u32) == colour)
        by (bit_vector);
}

/// What a device descriptor must answer for the locator's check. The
/// methods carry no contract so that callers outside the library can
/// implement the trait for their own descriptor types.
pub trait G213DeviceDescriptor {
    fn vendor_id(&self) -> u16;

    fn product_id(&self) -> u16;
}

/// The vendor and product ids read from a connected device.
pub struct UsbIds {
    pub vendor: u16,
    pub product: u16,
}

impl G213DeviceDescriptor for UsbIds {
    fn vendor_id(&self) -> u16 {
        self.vendor
    }

    fn product_id(&self) -> u16 {
        self.product
    }
}

/// Whether the given ids name the Logitech G213 keyboard.
pub fn is_g213_ids(vendor: u16, product: u16) -> (r: bool)
    ensures
        r == (vendor == LOGITECH && product == G213),
{
    vendor == LOGITECH && product == G213
}

/// Whether a descriptor names the Logitech G213 keyboard: its ids must
/// equal the fixed Logitech vendor id and G213 product id. The answer is
/// `is_g213_ids` of whatever the descriptor reports; the descriptor's
/// methods themselves carry no contract.
pub fn is_g213_keyboard<D: G213DeviceDescriptor>(descriptor: &D) -> bool {
    let vendor = descriptor.vendor_id();
    let product = descriptor.product_id();
    is_g213_ids(vendor, product)
}

/// Enumerate the connected USB devices and return the first whose
/// descriptor names the G213 keyboard, or `None` when no device matches
/// or the devices cannot be enumerated. Which device comes back depends
/// on what is connected, so nothing more can be stated of the result.
pub fn find_g213_keyboard() -> (r: Option<UsbDevice>) {
    let context = match usb::new_context() {
        Ok(context) => context,
        Err(_) => {
            return None;
        },
    };
    let mut devices = match usb::usb_devices(&context) {
        Ok(devices) => devices,
        Err(_) => {
            return None;
        },
    };
    while devices.len() > 0
        decreases devices@.len(),
    {
        let device = devices.remove(0);
        match usb::device_descriptor(&device) {
            Ok(descriptor) => {
                let ids = UsbIds {
                    vendor: usb::descriptor_vendor_id(&descriptor),
                    product: usb::descriptor_product_id(&descriptor),
                };
                if is_g213_keyboard(&ids) {
                    return Some(device);
                }
            },
            Err(_) => {},
        }
    }
    None
}

/// The interface index the frames are addressed to.
const INTERFACE: u8 = 0x01;

/// The interrupt-read endpoint that drains the acknowledgement.
const ENDPOINT: u8 = 0x82;

const REQ_TYPE: u8 = 0x21;

const REQ: u8 = 0x09;

const VALUE: u16 = 0x0211;

const INDEX: u16 = 0x0001;

const TIMEOUT_MS: u64 = 200;

/// An error is one the transport layer can produce.
pub open spec fn spec_transport_error(e: G213Error) -> bool {
    e == G213Error::DeviceOpen || e == G213Error::DriverDetach || e == G213Error::Transport || e
        == G213Error::DriverReattach
}

/// One control write of the frame, followed immediately by one interrupt
/// read into the same buffer, draining the device acknowledgement.
fn send_to_keyboard(handle: &UsbHandle, bytes: &mut Vec<u8>) -> (r: Result<usize, G213Error>)
    ensures
        final(bytes)@.len() == old(bytes)@.len(),
        r matches Err(e) ==> e == G213Error::Transport,
{
    match usb::write_control(handle, REQ_TYPE, REQ, VALUE, INDEX, bytes, TIMEOUT_MS) {
        Ok(_) => {},
        Err(_) => {
            return Err(G213Error::Transport);
        },
    }
    match usb::read_interrupt(handle, ENDPOINT, bytes, TIMEOUT_MS) {
        Ok(n) => Ok(n),
        Err(_) => Err(G213Error::Transport),
    }
}

/// Open the device, detach a bound kernel driver if one is active, exchange
/// exactly one frame, and always attempt reattachment before returning.
/// A reattachment failure is reported but does not reverse a successful
/// send; a detachment failure aborts before anything is sent.
pub fn send_command_wrapper(device: &UsbDevice, bytes: &mut Vec<u8>) -> (r: Result<(), G213Error>)
    requires
        old(bytes)@.len() == CMD_LEN,
    ensures
        final(bytes)@.len() == old(bytes)@.len(),
        r matches Err(e) ==> spec_transport_error(e),
{
    let handle = match usb::open_device(device) {
        Ok(handle) => handle,
        Err(_) => {
            return Err(G213Error::DeviceOpen);
        },
    };
    let active = match usb::kernel_driver_active(&handle, INTERFACE) {
        Ok(active) => active,
        Err(_) => {
            return Err(G213Error::DriverDetach);
        },
    };
    let mut detached = false;
    if active {
        match usb::detach_kernel_driver(&handle, INTERFACE) {
            Ok(_) => {
                detached = true;
            },
            Err(_) => {
                return Err(G213Error::DriverDetach);
            },
        }
    }
    let send_result = send_to_keyboard(&handle, bytes);
    let mut reattach_failed = false;
    if detached {
        match usb::attach_kernel_driver(&handle, INTERFACE) {
            Ok(_) => {},
            Err(_) => {
                reattach_failed = true;
            },
        }
    }
    match send_result {
        Ok(_) => {
            if reattach_failed {
                Err(G213Error::DriverReattach)
            } else {
                Ok(())
            }
        },
        Err(e) => Err(e),
    }
}

/// Set the whole keyboard to one static colour.
pub fn set_whole_keyboard_colour(device: &UsbDevice, colour: u32) -> (r: Result<(), G213Error>)
    requires
        spec_valid_colour(colour),
    ensures
        r matches Err(e) ==> spec_transport_error(e),
{
    let mut bytes = static_frame(0x00, colour);
    send_command_wrapper(device, &mut bytes)
}

/// Set one region to a static colour.
pub fn set_region_colour(device: &UsbDevice, region: KeyboardRegions, colour: u32) -> (r: Result<
    (),
    G213Error,
>)
    requires
        spec_valid_colour(colour),
    ensures
        r matches Err(e) ==> spec_transport_error(e),
{
    let mut bytes = static_frame(region.code(), colour);
    send_command_wrapper(device, &mut bytes)
}

/// Start the breathing effect with a colour and an already-clamped speed.
pub fn set_breathe(device: &UsbDevice, speed: u16, colour: u32) -> (r: Result<(), G213Error>)
    requires
        spec_valid_colour(colour),
    ensures
        r matches Err(e) ==> spec_transport_error(e),
{
    let mut bytes = breathe_frame(colour, speed);
    send_command_wrapper(device, &mut bytes)
}

/// Start the spectrum-cycle effect with an already-clamped speed.
pub fn set_cycle(device: &UsbDevice, speed: u16) -> (r: Result<(), G213Error>)
    ensures
        r matches Err(e) ==> spec_transport_error(e),
{
    let mut bytes = cycle_frame(speed);
    send_command_wrapper(device, &mut bytes)
}

} // verus!
