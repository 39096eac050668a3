//! The vendor half of the catalog: a vendor owns an ordered list of devices,
//! and each device an ordered list of subdevices.
//!
//! Every entity is created during the parse and immutable afterwards; the
//! abstract content of each is its view, a plain record over sequences.

use vstd::prelude::*;

verus! {

/// Abstract content of a [`SubDevice`].
pub struct SubDeviceV {
    pub subvendor_id: u16,
    pub subdevice_id: u16,
    pub name: Seq<char>,
}

/// Abstract content of a [`Device`].
pub struct DeviceV {
    pub id: u16,
    pub name: Seq<char>,
    pub subdevices: Seq<SubDeviceV>,
}

/// Abstract content of a [`Vendor`].
pub struct VendorV {
    pub id: u16,
    pub name: Seq<char>,
    pub devices: Seq<DeviceV>,
}

/// A hardware vendor.
#[derive(Debug, PartialEq, Eq, Hash, Clone)]
pub struct Vendor {
    id: u16,
    name: String,
    devices: Vec<Device>,
}

/// A PCI device of a vendor.
#[derive(Debug, PartialEq, Eq, Hash, Clone)]
pub struct Device {
    id: u16,
    name: String,
    subdevices: Vec<SubDevice>,
}

/// One OEM variant of a device, identified by a subvendor/subdevice id pair.
#[derive(Debug, PartialEq, Eq, Hash, Clone)]
pub struct SubDevice {
    subvendor_id: u16,
    subdevice_id: u16,
    name: String,
}

impl View for SubDevice {
    type V = SubDeviceV;

    closed spec fn view(&self) -> SubDeviceV {
        SubDeviceV {
            subvendor_id: self.subvendor_id,
            subdevice_id: self.subdevice_id,
            name: self.name@,
        }
    }
}

impl DeepView for SubDevice {
    type V = SubDeviceV;

    open spec fn deep_view(&self) -> SubDeviceV {
        self@
    }
}

impl View for Device {
    type V = DeviceV;

    closed spec fn view(&self) -> DeviceV {
        DeviceV { id: self.id, name: self.name@, subdevices: self.subdevices.deep_view() }
    }
}

impl DeepView for Device {
    type V = DeviceV;

    open spec fn deep_view(&self) -> DeviceV {
        self@
    }
}

impl View for Vendor {
    type V = VendorV;

    closed spec fn view(&self) -> VendorV {
        VendorV { id: self.id, name: self.name@, devices: self.devices.deep_view() }
    }
}

impl DeepView for Vendor {
    type V = VendorV;

    open spec fn deep_view(&self) -> VendorV {
        self@
    }
}

impl Vendor {
    /// Creates a vendor with the given id and name and no devices yet.
    pub fn new(id: u16, name: String) -> (r: Self)
        ensures
            r@ == (VendorV { id, name: name@, devices: Seq::<DeviceV>::empty() }),
    {
        let r = Self { id, name, devices: Vec::new() };
        proof {
            assert(r@.devices =~= Seq::<DeviceV>::empty());
        }
        r
    }

    /// The vendor id.
    pub fn id(&self) -> (r: u16)
        ensures
            r == self@.id,
    {
        self.id
    }

    /// The vendor's name.
    pub fn name(&self) -> (r: &str)
        ensures
            r@ == self@.name,
    {
        self.name.as_str()
    }

    /// The devices ascribed to this vendor, in file order.
    pub fn devices(&self) -> (r: &Vec<Device>)
        ensures
            r.deep_view() == self@.devices,
    {
        &self.devices
    }

    /// Replaces the device list with a fully collected one.
    pub(crate) fn set_devices(&mut self, devices: Vec<Device>)
        ensures
            final(self)@ == (VendorV { devices: devices.deep_view(), ..old(self)@ }),
    {
        self.devices = devices;
    }
}

impl Device {
    /// Creates a device with the given id and name and no subdevices yet.
    pub fn new(id: u16, name: String) -> (r: Self)
        ensures
            r@ == (DeviceV { id, name: name@, subdevices: Seq::<SubDeviceV>::empty() }),
    {
        let r = Self { id, name, subdevices: Vec::new() };
        proof {
            assert(r@.subdevices =~= Seq::<SubDeviceV>::empty());
        }
        r
    }

    /// The device id, unique within its vendor in practice.
    pub fn id(&self) -> (r: u16)
        ensures
            r == self@.id,
    {
        self.id
    }

    /// The device's name.
    pub fn name(&self) -> (r: &str)
        ensures
            r@ == self@.name,
    {
        self.name.as_str()
    }

    /// The subdevices of this device, in file order.
    pub fn subdevices(&self) -> (r: &Vec<SubDevice>)
        ensures
            r.deep_view() == self@.subdevices,
    {
        &self.subdevices
    }

    /// Replaces the subdevice list with a fully collected one.
    pub(crate) fn set_subdevices(&mut self, subdevices: Vec<SubDevice>)
        ensures
            final(self)@ == (DeviceV { subdevices: subdevices.deep_view(), ..old(self)@ }),
    {
        self.subdevices = subdevices;
    }
}

impl SubDevice {
    /// Creates a subdevice from its subvendor id, subdevice id and name.
    pub fn new(subvendor_id: u16, subdevice_id: u16, name: String) -> (r: Self)
        ensures
            r@ == (SubDeviceV { subvendor_id, subdevice_id, name: name@ }),
    {
        Self { subvendor_id, subdevice_id, name }
    }

    /// The OEM/subvendor id.
    pub fn subvendor_id(&self) -> (r: u16)
        ensures
            r == self@.subvendor_id,
    {
        self.subvendor_id
    }

    /// The id of the concrete device variant.
    pub fn subdevice_id(&self) -> (r: u16)
        ensures
            r == self@.subdevice_id,
    {
        self.subdevice_id
    }

    /// The subdevice's name.
    pub fn name(&self) -> (r: &str)
        ensures
            r@ == self@.name,
    {
        self.name.as_str()
    }
}

} // verus!
