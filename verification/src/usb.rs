//! Trusted bindings to the `rusb` crate. `rusb::Device` and
//! `rusb::DeviceHandle` are generic over a context trait that Verus cannot
//! declare, so each is held in an opaque struct of the library's own; every
//! call the transport layer makes goes through one wrapper here. Each
//! contract states no more than the `rusb` source shows; the outcomes
//! depend on the connected hardware. An explicit `rusb::Context` is used
//! rather than the global one: creating it reports a `libusb`
//! initialization failure as an `Err`, where the global context would
//! abort on first use.

use vstd::prelude::*;

verus! {

/// A connected USB device, as enumerated by `rusb`.
#[verifier::external_body]
pub struct UsbDevice {
    device: rusb::Device<rusb::Context>,
}

/// An open handle to a USB device.
#[verifier::external_body]
pub struct UsbHandle {
    handle: rusb::DeviceHandle<rusb::Context>,
}

#[verifier::external_type_specification]
#[verifier::external_body]
pub struct ExContext(rusb::Context);

#[verifier::external_type_specification]
#[verifier::external_body]
pub struct ExDeviceDescriptor(rusb::DeviceDescriptor);

#[verifier::external_type_specification]
#[verifier::external_body]
pub struct ExError(rusb::Error);

/// Relies on rusb::Context::new: open a `libusb` context; an
/// initialization failure comes back as an `Err`, never a panic.
#[verifier::external_body]
pub(crate) fn new_context() -> (r: Result<rusb::Context, rusb::Error>) {
    rusb::Context::new()
}

/// Relies on rusb::DeviceDescriptor::vendor_id: the descriptor's vendor id.
#[verifier::external_body]
pub(crate) fn descriptor_vendor_id(descriptor: &rusb::DeviceDescriptor) -> (r: u16) {
    descriptor.vendor_id()
}

/// Relies on rusb::DeviceDescriptor::product_id: the descriptor's product id.
#[verifier::external_body]
pub(crate) fn descriptor_product_id(descriptor: &rusb::DeviceDescriptor) -> (r: u16) {
    descriptor.product_id()
}

/// Relies on rusb::UsbContext::devices: enumerate the connected USB
/// devices, in whatever order the system reports them.
#[verifier::external_body]
pub(crate) fn usb_devices(context: &rusb::Context) -> (r: Result<Vec<UsbDevice>, rusb::Error>) {
    match rusb::UsbContext::devices(context) {
        Ok(list) => Ok(list.iter().map(|device| UsbDevice { device }).collect()),
        Err(e) => Err(e),
    }
}

/// Relies on rusb::Device::device_descriptor: read the device's descriptor.
#[verifier::external_body]
pub(crate) fn device_descriptor(device: &UsbDevice) -> (r: Result<
    rusb::DeviceDescriptor,
    rusb::Error,
>) {
    device.device.device_descriptor()
}

/// Relies on rusb::Device::bus_number: the bus the device sits on.
#[verifier::external_body]
pub fn bus_number(device: &UsbDevice) -> (r: u8) {
    device.device.bus_number()
}

/// Relies on rusb::Device::address: the device's address on its bus.
#[verifier::external_body]
pub fn device_address(device: &UsbDevice) -> (r: u8) {
    device.device.address()
}

/// Relies on rusb::Device::speed, shown with its Debug text.
#[verifier::external_body]
pub fn device_speed_text(device: &UsbDevice) -> (r: String) {
    format!("{:?}", device.device.speed())
}

/// Relies on rusb::Device::open: open the device for use.
#[verifier::external_body]
pub(crate) fn open_device(device: &UsbDevice) -> (r: Result<UsbHandle, rusb::Error>) {
    match device.device.open() {
        Ok(handle) => Ok(UsbHandle { handle }),
        Err(e) => Err(e),
    }
}

/// Relies on rusb::DeviceHandle::kernel_driver_active: whether a kernel
/// driver is bound to the interface.
#[verifier::external_body]
pub(crate) fn kernel_driver_active(handle: &UsbHandle, interface: u8) -> (r: Result<
    bool,
    rusb::Error,
>) {
    handle.handle.kernel_driver_active(interface)
}

/// Relies on rusb::DeviceHandle::detach_kernel_driver: detach the kernel
/// driver bound to the interface.
#[verifier::external_body]
pub(crate) fn detach_kernel_driver(handle: &UsbHandle, interface: u8) -> (r: Result<
    (),
    rusb::Error,
>) {
    handle.handle.detach_kernel_driver(interface)
}

/// Relies on rusb::DeviceHandle::attach_kernel_driver: reattach the kernel
/// driver to the interface.
#[verifier::external_body]
pub(crate) fn attach_kernel_driver(handle: &UsbHandle, interface: u8) -> (r: Result<
    (),
    rusb::Error,
>) {
    handle.handle.attach_kernel_driver(interface)
}

/// Relies on rusb::DeviceHandle::write_control: one control transfer of the
/// buffer; on success the count written is at most the buffer's length.
#[verifier::external_body]
pub(crate) fn write_control(
    handle: &UsbHandle,
    request_type: u8,
    request: u8,
    value: u16,
    index: u16,
    buf: &Vec<u8>,
    timeout_ms: u64,
) -> (r: Result<usize, rusb::Error>)
    ensures
        r matches Ok(n) ==> n <= buf@.len(),
{
    handle.handle.write_control(
        request_type,
        request,
        value,
        index,
        buf.as_slice(),
        core::time::Duration::from_millis(timeout_ms),
    )
}

/// Relies on rusb::DeviceHandle::read_interrupt: one interrupt-transfer read
/// into the buffer; the buffer keeps its length, and on success the count
/// read is at most that length.
#[verifier::external_body]
pub(crate) fn read_interrupt(
    handle: &UsbHandle,
    endpoint: u8,
    buf: &mut Vec<u8>,
    timeout_ms: u64,
) -> (r: Result<usize, rusb::Error>)
    ensures
        final(buf)@.len() == old(buf)@.len(),
        r matches Ok(n) ==> n <= old(buf)@.len(),
{
    handle.handle.read_interrupt(
        endpoint,
        buf.as_mut_slice(),
        core::time::Duration::from_millis(timeout_ms),
    )
}

} // verus!
