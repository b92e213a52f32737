//! The serial client's settings, the lookup of a device's serial port, and
//! the details that a device reports about itself.
use vstd::prelude::*;
use vstd::string::*;
use crate::exchange::SerialError;

verus! {

/// Vendor id of the devices in normal operation.
pub const VENDOR_ID: u16 = 0x0483;

/// Product id of the devices in normal operation.
pub const PRODUCT_ID: u16 = 0x5740;

/// Product id of the devices in firmware-upgrade mode.
pub const PRODUCT_DFU_ID: u16 = 0xDF11;

/// Read timeout of the serial port, in milliseconds.
pub const USB_TIMEOUT_MS: u64 = 1000;

pub const USB_BAUD_RATE: u32 = 9600;

/// The settings of a serial client, as values.
pub struct DeviceSettings {
    pub vid: u16,
    pub pid: u16,
    pub timeout_ms: u64,
    pub baud_rate: u32,
}

/// Settings of the serial client: which device to talk to and how.
#[derive(Debug, Clone, PartialEq, Eq, Hash)]
pub struct PirateMIDIDevice {
    vid: u16,
    pid: u16,
    timeout_ms: u64,
    baud_rate: u32,
}

impl View for PirateMIDIDevice {
    type V = DeviceSettings;

    closed spec fn view(&self) -> DeviceSettings {
        DeviceSettings {
            vid: self.vid,
            pid: self.pid,
            timeout_ms: self.timeout_ms,
            baud_rate: self.baud_rate,
        }
    }
}

impl Default for PirateMIDIDevice {
    fn default() -> (r: PirateMIDIDevice)
        ensures
            r@ == (DeviceSettings {
                vid: VENDOR_ID,
                pid: PRODUCT_ID,
                timeout_ms: USB_TIMEOUT_MS,
                baud_rate: USB_BAUD_RATE,
            }),
    {
        PirateMIDIDevice {
            vid: VENDOR_ID,
            pid: PRODUCT_ID,
            timeout_ms: USB_TIMEOUT_MS,
            baud_rate: USB_BAUD_RATE,
        }
    }
}

/// A serial port as the operating system lists it.
#[derive(Debug, Clone)]
pub struct PortInfo {
    pub port_name: String,
    /// Present for ports of USB devices.
    pub usb: Option<UsbPortInfo>,
}

#[derive(Debug, Clone)]
pub struct UsbPortInfo {
    pub vid: u16,
    pub pid: u16,
    pub manufacturer: Option<String>,
}

impl PirateMIDIDevice {
    /// A client with the default settings.
    pub fn new() -> (r: PirateMIDIDevice)
        ensures
            r@ == (DeviceSettings {
                vid: VENDOR_ID,
                pid: PRODUCT_ID,
                timeout_ms: USB_TIMEOUT_MS,
                baud_rate: USB_BAUD_RATE,
            }),
    {
        PirateMIDIDevice::default()
    }

    pub fn with_vendor_id(&self, vid: u16) -> (r: PirateMIDIDevice)
        ensures
            r@ == (DeviceSettings { vid, ..self@ }),
    {
        PirateMIDIDevice { vid, pid: self.pid, timeout_ms: self.timeout_ms, baud_rate: self.baud_rate }
    }

    pub fn with_product_id(&self, pid: u16) -> (r: PirateMIDIDevice)
        ensures
            r@ == (DeviceSettings { pid, ..self@ }),
    {
        PirateMIDIDevice { vid: self.vid, pid, timeout_ms: self.timeout_ms, baud_rate: self.baud_rate }
    }

    pub fn with_baud_rate(&self, baud_rate: u32) -> (r: PirateMIDIDevice)
        ensures
            r@ == (DeviceSettings { baud_rate, ..self@ }),
    {
        PirateMIDIDevice { vid: self.vid, pid: self.pid, timeout_ms: self.timeout_ms, baud_rate }
    }

    /// Sets the read timeout, in milliseconds.
    pub fn with_timeout(&self, timeout_ms: u64) -> (r: PirateMIDIDevice)
        ensures
            r@ == (DeviceSettings { timeout_ms, ..self@ }),
    {
        PirateMIDIDevice { vid: self.vid, pid: self.pid, timeout_ms, baud_rate: self.baud_rate }
    }

    pub fn vendor_id(&self) -> (r: u16)
        ensures
            r == self@.vid,
    {
        self.vid
    }

    pub fn product_id(&self) -> (r: u16)
        ensures
            r == self@.pid,
    {
        self.pid
    }

    pub fn timeout_ms(&self) -> (r: u64)
        ensures
            r == self@.timeout_ms,
    {
        self.timeout_ms
    }

    pub fn baud_rate(&self) -> (r: u32)
        ensures
            r == self@.baud_rate,
    {
        self.baud_rate
    }

    /// The port belongs to a USB device with these settings' ids.
    pub open spec fn spec_port_matches(&self, port: PortInfo) -> bool {
        match port.usb {
            Some(u) => u.vid == self@.vid && u.pid == self@.pid,
            None => false,
        }
    }

    /// The index of the first port that belongs to the configured device.
    pub fn find_device(&self, ports: &Vec<PortInfo>) -> (r: Result<usize, SerialError>)
        ensures
            match r {
                Ok(i) => i < ports@.len() && self.spec_port_matches(ports@[i as int])
                    && forall|j: int| 0 <= j < i ==> !self.spec_port_matches(#[trigger] ports@[j]),
                Err(e) => (forall|j: int| 0 <= j < ports@.len() ==> !self.spec_port_matches(#[trigger] ports@[j]))
                    && e is InterfaceError && e->InterfaceError_0@ == "unable to locate device"@,
            },
    {
        let mut i: usize = 0;
        while i < ports.len()
            invariant
                i <= ports@.len(),
                forall|j: int| 0 <= j < i ==> !self.spec_port_matches(#[trigger] ports@[j]),
            decreases ports.len() - i,
        {
            let found = match &ports[i].usb {
                Some(u) => u.vid == self.vid && u.pid == self.pid,
                None => false,
            };
            if found {
                return Ok(i);
            }
            i = i + 1;
        }
        Err(SerialError::InterfaceError(String::from_str("unable to locate device")))
    }
}

/// What a device answers to a check request.
#[derive(Debug, Clone, PartialEq, Eq, Default)]
pub struct CheckResponse {
    pub uid: String,
    pub device_model: String,
    pub firmware_version: String,
    pub hardware_version: String,
    pub device_name: String,
    pub profile_id: String,
}

/// The details of a connected device: its check response and the
/// manufacturer string of its USB port.
#[derive(Debug, Clone, PartialEq, Eq, Default)]
pub struct DeviceDetails {
    pub manufacturer: String,
    pub device_model: String,
    pub firmware_version: String,
    pub hardware_version: String,
    pub uid: String,
    pub device_name: String,
    pub profile_id: String,
}

/// The serial protocol client. Each exchange opens the port, uses it, and
/// releases it; nothing is kept between calls.
#[derive(Debug, Clone, Default)]
pub struct PirateMIDISerialDevice {}

/// The manufacturer that a port reports, or an empty string.
pub open spec fn spec_port_manufacturer(port: PortInfo) -> Seq<char> {
    match port.usb {
        Some(u) => match u.manufacturer {
            Some(m) => m@,
            None => Seq::empty(),
        },
        None => Seq::empty(),
    }
}

impl PirateMIDISerialDevice {
    /// The details of the device on `port` that answered `check`.
    pub fn details_from_check(check: CheckResponse, port: &PortInfo) -> (r: DeviceDetails)
        ensures
            r.manufacturer@ == spec_port_manufacturer(*port),
            r.device_model == check.device_model,
            r.firmware_version == check.firmware_version,
            r.hardware_version == check.hardware_version,
            r.uid == check.uid,
            r.device_name == check.device_name,
            r.profile_id == check.profile_id,
    {
        let manufacturer = match &port.usb {
            Some(u) => match &u.manufacturer {
                Some(m) => m.clone(),
                None => String::new(),
            },
            None => String::new(),
        };
        DeviceDetails {
            manufacturer,
            device_model: check.device_model,
            firmware_version: check.firmware_version,
            hardware_version: check.hardware_version,
            uid: check.uid,
            device_name: check.device_name,
            profile_id: check.profile_id,
        }
    }
}

} // verus!
