//! A verified parser for the `pci.ids` hardware-identification database.
//!
//! The database is a plain-text, indentation-delimited catalog mapping PCI
//! vendor, device and subdevice identifiers to human-readable names, and
//! separately mapping device-class, subclass and programming-interface bytes
//! to category names.  [`pci_ids::PciIds::parse_lines`] scans that text once,
//! line by line, and builds the two hierarchies; its contract ties the result
//! to a mathematical model of the scan, so the attachment of children to
//! parents, the depth detection and the field splitting are all proved.

pub mod class;
pub mod device_class;
pub mod hex;
pub mod laws;
pub mod model;
pub mod pci_ids;
pub mod text;
pub mod vendor;
