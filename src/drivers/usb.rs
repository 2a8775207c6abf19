//! USB standard descriptors, laid out as on the wire.

use vstd::prelude::*;

verus! {

/// Binary device object store descriptor.
#[allow(non_snake_case)]
#[derive(Clone, Copy, Debug)]
pub struct BOSDescriptor {
    pub bLength: u8,
    pub bDescriptorType: u8,
    pub wTotalLength: u16,
    pub bNumDeviceCaps: u8,
}

/// Configuration descriptor.
#[allow(non_snake_case)]
#[derive(Clone, Copy, Debug)]
pub struct ConfigurationDescriptor {
    pub bLength: u8,
    pub bDescriptorType: u8,
    pub wTotalLength: u16,
    pub bNumInterfaces: u8,
    pub bConfigurationValue: u8,
    pub iConfiguration: u8,
    pub bmAttributes: u8,
    pub bMaxPower: u8,
}

/// Device descriptor.
#[allow(non_snake_case)]
#[derive(Clone, Copy, Debug)]
pub struct DeviceDescriptor {
    pub bLength: u8,
    pub bDescriptorType: u8,
    pub bcdUSB: u16,
    pub bDeviceClass: u8,
    pub bDeviceSubClass: u8,
    pub bDeviceProtocol: u8,
    pub bMaxPacketSize0: u8,
    pub idVendor: u16,
    pub idProduct: u16,
    pub bcdDevice: u16,
    pub iManufacturer: u8,
    pub iProduct: u8,
    pub iSerialNumber: u8,
    pub bNumConfigurations: u8,
}

/// Endpoint descriptor.
#[allow(non_snake_case)]
#[derive(Clone, Copy, Debug)]
pub struct EndpointDescriptor {
    pub bLength: u8,
    pub bDescriptorType: u8,
    pub bEndpointAddress: u8,
    pub bmAttributes: u8,
    pub wMaxPacketSize: u16,
    pub bInterval: u8,
}

/// Interface descriptor.
#[allow(non_snake_case)]
#[derive(Clone, Copy, Debug)]
pub struct InterfaceDescriptor {
    pub bLength: u8,
    pub bDescriptorType: u8,
    pub bInterfaceNumber: u8,
    pub bAlternateSetting: u8,
    pub bNumEndpoints: u8,
    pub bInterfaceClass: u8,
    pub bInterfaceSubClass: u8,
    pub bInterfaceProtocol: u8,
    pub iInterface: u8,
}

/// String descriptor of `SIZE` bytes of string data.
#[allow(non_snake_case)]
#[derive(Clone, Copy, Debug)]
pub struct StringDescriptor<const SIZE: usize> {
    pub bLength: u8,
    pub bDescriptorType: u8,
    pub bString: [u8; SIZE],
}

} // verus!
