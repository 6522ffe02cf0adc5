//! The serial devices that the system shows, as they are listed for a user.

use vstd::prelude::*;
use vstd::string::StringExecFns;
use crate::error::{SerialError, SerialErrorView};
use crate::text::{concat, debug_quote, debug_text};

verus! {

/// How a serial device is attached.
#[derive(Debug, PartialEq, Eq)]
pub enum PortKind {
    /// Attached over USB; holds the manufacturer's name where the device
    /// gives one.
    Usb { manufacturer: Option<String> },
    Bluetooth,
    Pci,
    Unknown,
}

/// A serial device as the system reports it.
#[derive(Debug, PartialEq, Eq)]
pub struct DetectedPort {
    pub name: String,
    pub kind: PortKind,
}

/// A serial device as it is listed for a user.
#[derive(Debug, PartialEq, Eq)]
pub struct PortInfo {
    pub name: String,
    pub port_type: String,
    pub description: Option<String>,
}

/// A [`PortInfo`] with its texts as character sequences.
pub struct PortInfoView {
    pub name: Seq<char>,
    pub port_type: Seq<char>,
    pub description: Option<Seq<char>>,
}

impl View for PortInfo {
    type V = PortInfoView;

    open spec fn view(&self) -> PortInfoView {
        PortInfoView {
            name: self.name@,
            port_type: self.port_type@,
            description: match self.description {
                Some(text) => Some(text@),
                None => None,
            },
        }
    }
}

/// The label of a device's kind.
pub open spec fn type_label(kind: PortKind) -> Seq<char> {
    match kind {
        PortKind::Usb { .. } => "USB"@,
        PortKind::Bluetooth => "Bluetooth"@,
        PortKind::Pci => "PCI"@,
        PortKind::Unknown => "Unknown"@,
    }
}

/// The manufacturer's name, or `Unknown` where the device gives none.
pub open spec fn manufacturer_text(manufacturer: Option<String>) -> Seq<char> {
    match manufacturer {
        Some(name) => name@,
        None => "Unknown"@,
    }
}

/// The description of a USB device whose manufacturer, formatted with `{:?}`,
/// is `quoted`.
pub open spec fn usb_description_text(quoted: Seq<char>) -> Seq<char> {
    "USB Device - Manufacturer: "@ + quoted
}

/// The description of a device: only a USB device has one.
pub open spec fn description_of(kind: PortKind) -> Option<Seq<char>> {
    match kind {
        PortKind::Usb { manufacturer } => Some(
            usb_description_text(debug_text(manufacturer_text(manufacturer))),
        ),
        _ => None,
    }
}

/// The listing of a device.
pub open spec fn info_of(port: DetectedPort) -> PortInfoView {
    PortInfoView {
        name: port.name@,
        port_type: type_label(port.kind),
        description: description_of(port.kind),
    }
}

/// The description of a USB device, from its manufacturer's name as `{:?}`
/// formats it.
pub fn usb_description(quoted_manufacturer: &str) -> (text: String)
    ensures
        text@ == usb_description_text(quoted_manufacturer@),
{
    concat("USB Device - Manufacturer: ", quoted_manufacturer)
}

/// Lists one device.
pub fn port_info(port: &DetectedPort) -> (info: PortInfo)
    ensures
        info@ == info_of(*port),
{
    let (port_type, description) = match &port.kind {
        PortKind::Usb { manufacturer } => {
            let quoted = match manufacturer {
                Some(name) => debug_quote(name.as_str()),
                None => debug_quote("Unknown"),
            };
            (String::from_str("USB"), Some(usb_description(quoted.as_str())))
        },
        PortKind::Bluetooth => (String::from_str("Bluetooth"), None),
        PortKind::Pci => (String::from_str("PCI"), None),
        PortKind::Unknown => (String::from_str("Unknown"), None),
    };
    PortInfo { name: port.name.clone(), port_type, description }
}

/// Lists the devices that an enumeration found, in the order in which it
/// found them, or reports why the enumeration failed.
pub fn list_serial_ports(
    found: Result<Vec<DetectedPort>, String>,
) -> (listing: Result<Vec<PortInfo>, SerialError>)
    ensures
        match found {
            Ok(ports) => listing matches Ok(infos) && infos@.len() == ports@.len() && forall|i: int|
                0 <= i < ports@.len() ==> (#[trigger] infos@[i])@ == info_of(ports@[i]),
            Err(reason) => listing matches Err(error) && error@ == SerialErrorView::EnumerationError(
                reason@,
            ),
        },
{
    match found {
        Ok(ports) => {
            let mut infos: Vec<PortInfo> = Vec::new();
            let mut i: usize = 0;
            while i < ports.len()
                invariant
                    i <= ports@.len(),
                    infos@.len() == i,
                    forall|j: int| 0 <= j < i ==> (#[trigger] infos@[j])@ == info_of(ports@[j]),
                decreases ports@.len() - i,
            {
                infos.push(port_info(&ports[i]));
                i += 1;
            }
            Ok(infos)
        },
        Err(reason) => Err(SerialError::EnumerationError(reason)),
    }
}

} // verus!
