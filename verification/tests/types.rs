//! Tests of the catalog entities and their accessors.

use pci_id::class::{Interface, SubClass};
use pci_id::pci_ids::PciIds;
use pci_id::vendor::{Device, SubDevice, Vendor};

#[test]
fn vendor_accessors() {
    let v = Vendor::new(0x1da2, "Sapphire Technology Limited".to_string());
    assert_eq!(v.id(), 0x1da2);
    assert_eq!(v.name(), "Sapphire Technology Limited");
    assert!(v.devices().is_empty());
}

#[test]
fn device_accessors() {
    let d = Device::new(0x0046, "Smart Array 64xx".to_string());
    assert_eq!(d.id(), 0x0046);
    assert_eq!(d.name(), "Smart Array 64xx");
    assert!(d.subdevices().is_empty());
}

#[test]
fn subdevice_accessors() {
    let s = SubDevice::new(0x0e11, 0x409d, "Smart Array 6400 EM".to_string());
    assert_eq!(s.subvendor_id(), 0x0e11);
    assert_eq!(s.subdevice_id(), 0x409d);
    assert_eq!(s.name(), "Smart Array 6400 EM");
}

#[test]
fn class_accessors() {
    let c = pci_id::class::Class::new(0x0c, "Serial bus controller".to_string());
    assert_eq!(u8::from(c.class()), 0x0c);
    assert_eq!(c.name(), "Serial bus controller");
    assert!(c.subclasses().is_empty());
}

#[test]
fn subclass_accessors() {
    let s = SubClass::new(0x03, "USB controller".to_string());
    assert_eq!(s.id(), 0x03);
    assert_eq!(s.name(), "USB controller");
    assert!(s.interfaces().is_empty());
}

#[test]
fn interface_accessors() {
    let i = Interface::new(0xfe, "USB Device".to_string());
    assert_eq!(i.id(), 0xfe);
    assert_eq!(i.name(), "USB Device");
}

#[test]
fn new_catalog_is_empty() {
    let cat = PciIds::new();
    assert!(cat.vendors().is_empty());
    assert!(cat.classes().is_empty());
    let def = PciIds::default();
    assert_eq!(cat, def);
}
