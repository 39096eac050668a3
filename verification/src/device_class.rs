//! The closed enumeration of well-known device-class bytes.
//!
//! The class section of the database assigns one byte to every category a
//! device can belong to.  This module maps the bytes that the database
//! defines onto an enumeration and back, and offers the conventional English
//! description of each category.

use vstd::prelude::*;

verus! {

/// The categories a device can belong to, one per class byte the database
/// defines.
#[derive(Debug, Clone, Copy, PartialEq, Eq, Hash, Structural)]
pub enum DeviceClass {
    Unclassified,
    MassStorageController,
    NetworkController,
    DisplayController,
    MultimediaController,
    MemoryController,
    Bridge,
    CommunicationController,
    GenericSystemPeripheral,
    InputDeviceController,
    DockingStation,
    Processor,
    SerialBusController,
    WirelessController,
    IntelligentController,
    SatelliteCommunicationsController,
    EncryptionController,
    SignalProcessingController,
    ProcessingAccelerator,
    NonEssentialInstrumentation,
    Coprocessor,
    Unassigned,
}

/// Whether a class byte has a corresponding [`DeviceClass`].
pub open spec fn is_recognized_class(b: u8) -> bool {
    b <= 0x13 || b == 0x40 || b == 0xff
}

/// The enumeration member for a recognized class byte; unrecognized bytes
/// are mapped, arbitrarily, to `Unclassified`.
pub open spec fn class_of_byte(b: u8) -> DeviceClass {
    if b == 0x00 {
        DeviceClass::Unclassified
    } else if b == 0x01 {
        DeviceClass::MassStorageController
    } else if b == 0x02 {
        DeviceClass::NetworkController
    } else if b == 0x03 {
        DeviceClass::DisplayController
    } else if b == 0x04 {
        DeviceClass::MultimediaController
    } else if b == 0x05 {
        DeviceClass::MemoryController
    } else if b == 0x06 {
        DeviceClass::Bridge
    } else if b == 0x07 {
        DeviceClass::CommunicationController
    } else if b == 0x08 {
        DeviceClass::GenericSystemPeripheral
    } else if b == 0x09 {
        DeviceClass::InputDeviceController
    } else if b == 0x0a {
        DeviceClass::DockingStation
    } else if b == 0x0b {
        DeviceClass::Processor
    } else if b == 0x0c {
        DeviceClass::SerialBusController
    } else if b == 0x0d {
        DeviceClass::WirelessController
    } else if b == 0x0e {
        DeviceClass::IntelligentController
    } else if b == 0x0f {
        DeviceClass::SatelliteCommunicationsController
    } else if b == 0x10 {
        DeviceClass::EncryptionController
    } else if b == 0x11 {
        DeviceClass::SignalProcessingController
    } else if b == 0x12 {
        DeviceClass::ProcessingAccelerator
    } else if b == 0x13 {
        DeviceClass::NonEssentialInstrumentation
    } else if b == 0x40 {
        DeviceClass::Coprocessor
    } else {
        DeviceClass::Unassigned
    }
}

/// The class byte of an enumeration member.
pub open spec fn byte_of_class(c: DeviceClass) -> u8 {
    match c {
        DeviceClass::Unclassified => 0x00,
        DeviceClass::MassStorageController => 0x01,
        DeviceClass::NetworkController => 0x02,
        DeviceClass::DisplayController => 0x03,
        DeviceClass::MultimediaController => 0x04,
        DeviceClass::MemoryController => 0x05,
        DeviceClass::Bridge => 0x06,
        DeviceClass::CommunicationController => 0x07,
        DeviceClass::GenericSystemPeripheral => 0x08,
        DeviceClass::InputDeviceController => 0x09,
        DeviceClass::DockingStation => 0x0a,
        DeviceClass::Processor => 0x0b,
        DeviceClass::SerialBusController => 0x0c,
        DeviceClass::WirelessController => 0x0d,
        DeviceClass::IntelligentController => 0x0e,
        DeviceClass::SatelliteCommunicationsController => 0x0f,
        DeviceClass::EncryptionController => 0x10,
        DeviceClass::SignalProcessingController => 0x11,
        DeviceClass::ProcessingAccelerator => 0x12,
        DeviceClass::NonEssentialInstrumentation => 0x13,
        DeviceClass::Coprocessor => 0x40,
        DeviceClass::Unassigned => 0xff,
    }
}

/// Mapping a recognized byte to its class and back returns the byte.
pub proof fn lemma_class_byte_round_trip(b: u8)
    requires
        is_recognized_class(b),
    ensures
        byte_of_class(class_of_byte(b)) == b,
{
}

impl TryFrom<u8> for DeviceClass {
    type Error = &'static str;

    /// The class with the given byte, or an error for a byte the database
    /// does not define.
    fn try_from(byte: u8) -> (r: Result<Self, Self::Error>) {
        if byte <= 0x13 || byte == 0x40 || byte == 0xff {
            Ok(class_from_byte(byte))
        } else {
            Err("Invalid DeviceClass byte")
        }
    }
}

impl vstd::std_specs::convert::TryFromSpecImpl<u8> for DeviceClass {
    open spec fn obeys_try_from_spec() -> bool {
        true
    }

    open spec fn try_from_spec(v: u8) -> Result<Self, Self::Error> {
        if is_recognized_class(v) {
            Ok(class_of_byte(v))
        } else {
            Err("Invalid DeviceClass byte")
        }
    }
}

impl From<DeviceClass> for u8 {
    /// The byte of the given class.
    fn from(class: DeviceClass) -> (r: u8) {
        match class {
            DeviceClass::Unclassified => 0x00,
            DeviceClass::MassStorageController => 0x01,
            DeviceClass::NetworkController => 0x02,
            DeviceClass::DisplayController => 0x03,
            DeviceClass::MultimediaController => 0x04,
            DeviceClass::MemoryController => 0x05,
            DeviceClass::Bridge => 0x06,
            DeviceClass::CommunicationController => 0x07,
            DeviceClass::GenericSystemPeripheral => 0x08,
            DeviceClass::InputDeviceController => 0x09,
            DeviceClass::DockingStation => 0x0a,
            DeviceClass::Processor => 0x0b,
            DeviceClass::SerialBusController => 0x0c,
            DeviceClass::WirelessController => 0x0d,
            DeviceClass::IntelligentController => 0x0e,
            DeviceClass::SatelliteCommunicationsController => 0x0f,
            DeviceClass::EncryptionController => 0x10,
            DeviceClass::SignalProcessingController => 0x11,
            DeviceClass::ProcessingAccelerator => 0x12,
            DeviceClass::NonEssentialInstrumentation => 0x13,
            DeviceClass::Coprocessor => 0x40,
            DeviceClass::Unassigned => 0xff,
        }
    }
}

impl vstd::std_specs::convert::FromSpecImpl<DeviceClass> for u8 {
    open spec fn obeys_from_spec() -> bool {
        true
    }

    open spec fn from_spec(v: DeviceClass) -> u8 {
        byte_of_class(v)
    }
}

/// The enumeration member for a recognized class byte.
pub fn class_from_byte(b: u8) -> (c: DeviceClass)
    requires
        is_recognized_class(b),
    ensures
        c == class_of_byte(b),
{
    if b == 0x00 {
        DeviceClass::Unclassified
    } else if b == 0x01 {
        DeviceClass::MassStorageController
    } else if b == 0x02 {
        DeviceClass::NetworkController
    } else if b == 0x03 {
        DeviceClass::DisplayController
    } else if b == 0x04 {
        DeviceClass::MultimediaController
    } else if b == 0x05 {
        DeviceClass::MemoryController
    } else if b == 0x06 {
        DeviceClass::Bridge
    } else if b == 0x07 {
        DeviceClass::CommunicationController
    } else if b == 0x08 {
        DeviceClass::GenericSystemPeripheral
    } else if b == 0x09 {
        DeviceClass::InputDeviceController
    } else if b == 0x0a {
        DeviceClass::DockingStation
    } else if b == 0x0b {
        DeviceClass::Processor
    } else if b == 0x0c {
        DeviceClass::SerialBusController
    } else if b == 0x0d {
        DeviceClass::WirelessController
    } else if b == 0x0e {
        DeviceClass::IntelligentController
    } else if b == 0x0f {
        DeviceClass::SatelliteCommunicationsController
    } else if b == 0x10 {
        DeviceClass::EncryptionController
    } else if b == 0x11 {
        DeviceClass::SignalProcessingController
    } else if b == 0x12 {
        DeviceClass::ProcessingAccelerator
    } else if b == 0x13 {
        DeviceClass::NonEssentialInstrumentation
    } else if b == 0x40 {
        DeviceClass::Coprocessor
    } else {
        DeviceClass::Unassigned
    }
}

/// The conventional English description of each category.
pub open spec fn class_description(c: DeviceClass) -> Seq<char> {
    match c {
        DeviceClass::Unclassified => "Unclassified"@,
        DeviceClass::MassStorageController => "Mass Storage Controller"@,
        DeviceClass::NetworkController => "Network Controller"@,
        DeviceClass::DisplayController => "Display Controller"@,
        DeviceClass::MultimediaController => "Multimedia Controller"@,
        DeviceClass::MemoryController => "Memory Controller"@,
        DeviceClass::Bridge => "Bridge"@,
        DeviceClass::CommunicationController => "Communication Controller"@,
        DeviceClass::GenericSystemPeripheral => "Generic System Peripheral"@,
        DeviceClass::InputDeviceController => "Input Device Controller"@,
        DeviceClass::DockingStation => "Docking Station"@,
        DeviceClass::Processor => "Processor"@,
        DeviceClass::SerialBusController => "Serial Bus Controller"@,
        DeviceClass::WirelessController => "Wireless Controller"@,
        DeviceClass::IntelligentController => "Intelligent Controller"@,
        DeviceClass::SatelliteCommunicationsController => "Satellite Communications Controller"@,
        DeviceClass::EncryptionController => "Encryption Controller"@,
        DeviceClass::SignalProcessingController => "Signal Processing Controller"@,
        DeviceClass::ProcessingAccelerator => "Processing Accelerators"@,
        DeviceClass::NonEssentialInstrumentation => "Non Essential Instrumentation"@,
        DeviceClass::Unassigned => "Unassigned"@,
        DeviceClass::Coprocessor => "Coprocessor"@,
    }
}

impl DeviceClass {
    /// The conventional English description of this category.
    pub fn describe(&self) -> (r: String)
        ensures
            r@ == class_description(*self),
    {
        match *self {
            DeviceClass::Unclassified => String::from_str("Unclassified"),
            DeviceClass::MassStorageController => String::from_str("Mass Storage Controller"),
            DeviceClass::NetworkController => String::from_str("Network Controller"),
            DeviceClass::DisplayController => String::from_str("Display Controller"),
            DeviceClass::MultimediaController => String::from_str("Multimedia Controller"),
            DeviceClass::MemoryController => String::from_str("Memory Controller"),
            DeviceClass::Bridge => String::from_str("Bridge"),
            DeviceClass::CommunicationController => String::from_str("Communication Controller"),
            DeviceClass::GenericSystemPeripheral => String::from_str("Generic System Peripheral"),
            DeviceClass::InputDeviceController => String::from_str("Input Device Controller"),
            DeviceClass::DockingStation => String::from_str("Docking Station"),
            DeviceClass::Processor => String::from_str("Processor"),
            DeviceClass::SerialBusController => String::from_str("Serial Bus Controller"),
            DeviceClass::WirelessController => String::from_str("Wireless Controller"),
            DeviceClass::IntelligentController => String::from_str("Intelligent Controller"),
            DeviceClass::SatelliteCommunicationsController => String::from_str(
                "Satellite Communications Controller",
            ),
            DeviceClass::EncryptionController => String::from_str("Encryption Controller"),
            DeviceClass::SignalProcessingController => String::from_str(
                "Signal Processing Controller",
            ),
            DeviceClass::ProcessingAccelerator => String::from_str("Processing Accelerators"),
            DeviceClass::NonEssentialInstrumentation => String::from_str(
                "Non Essential Instrumentation",
            ),
            DeviceClass::Unassigned => String::from_str("Unassigned"),
            DeviceClass::Coprocessor => String::from_str("Coprocessor"),
        }
    }
}

} // verus!
