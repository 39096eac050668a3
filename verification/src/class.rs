//! The class half of the catalog: a device class owns an ordered list of
//! subclasses, and each subclass an ordered list of programming interfaces.

use crate::device_class::{class_of_byte, is_recognized_class, DeviceClass};
use vstd::prelude::*;

verus! {

/// Abstract content of an [`Interface`].
pub struct InterfaceV {
    pub id: u8,
    pub name: Seq<char>,
}

/// Abstract content of a [`SubClass`].
pub struct SubClassV {
    pub id: u8,
    pub name: Seq<char>,
    pub interfaces: Seq<InterfaceV>,
}

/// Abstract content of a [`Class`].
pub struct ClassV {
    pub class: DeviceClass,
    pub name: Seq<char>,
    pub subclasses: Seq<SubClassV>,
}

/// A category a device can belong to, with its subclasses.
#[derive(Debug, PartialEq, Eq, Hash, Clone)]
pub struct Class {
    class: DeviceClass,
    name: String,
    subclasses: Vec<SubClass>,
}

/// A subcategory of a device class.
#[derive(Debug, PartialEq, Eq, Hash, Clone)]
pub struct SubClass {
    id: u8,
    name: String,
    interfaces: Vec<Interface>,
}

/// A programming interface of a subclass: the finest level of
/// categorisation.
#[derive(Debug, PartialEq, Eq, Hash, Clone)]
pub struct Interface {
    id: u8,
    name: String,
}

impl View for Interface {
    type V = InterfaceV;

    closed spec fn view(&self) -> InterfaceV {
        InterfaceV { id: self.id, name: self.name@ }
    }
}

impl DeepView for Interface {
    type V = InterfaceV;

    open spec fn deep_view(&self) -> InterfaceV {
        self@
    }
}

impl View for SubClass {
    type V = SubClassV;

    closed spec fn view(&self) -> SubClassV {
        SubClassV { id: self.id, name: self.name@, interfaces: self.interfaces.deep_view() }
    }
}

impl DeepView for SubClass {
    type V = SubClassV;

    open spec fn deep_view(&self) -> SubClassV {
        self@
    }
}

impl View for Class {
    type V = ClassV;

    closed spec fn view(&self) -> ClassV {
        ClassV { class: self.class, name: self.name@, subclasses: self.subclasses.deep_view() }
    }
}

impl DeepView for Class {
    type V = ClassV;

    open spec fn deep_view(&self) -> ClassV {
        self@
    }
}

impl Class {
    /// Creates a class from a recognized class byte and the name found on
    /// its source line, with no subclasses yet.
    pub fn new(id: u8, name: String) -> (r: Self)
        requires
            is_recognized_class(id),
        ensures
            r@ == (ClassV {
                class: class_of_byte(id),
                name: name@,
                subclasses: Seq::<SubClassV>::empty(),
            }),
    {
        let r = Self {
            class: crate::device_class::class_from_byte(id),
            name,
            subclasses: Vec::new(),
        };
        proof {
            assert(r@.subclasses =~= Seq::<SubClassV>::empty());
        }
        r
    }

    /// The category this class stands for.
    pub fn class(&self) -> (r: DeviceClass)
        ensures
            r == self@.class,
    {
        self.class
    }

    /// The class's name as the database writes it.
    pub fn name(&self) -> (r: &str)
        ensures
            r@ == self@.name,
    {
        self.name.as_str()
    }

    /// The subclasses of this class, in file order.
    pub fn subclasses(&self) -> (r: &Vec<SubClass>)
        ensures
            r.deep_view() == self@.subclasses,
    {
        &self.subclasses
    }

    /// Replaces the subclass list with a fully collected one.
    pub(crate) fn set_subclasses(&mut self, subclasses: Vec<SubClass>)
        ensures
            final(self)@ == (ClassV { subclasses: subclasses.deep_view(), ..old(self)@ }),
    {
        self.subclasses = subclasses;
    }
}

impl SubClass {
    /// Creates a subclass with the given id and name and no interfaces yet.
    pub fn new(id: u8, name: String) -> (r: Self)
        ensures
            r@ == (SubClassV { id, name: name@, interfaces: Seq::<InterfaceV>::empty() }),
    {
        let r = Self { id, name, interfaces: Vec::new() };
        proof {
            assert(r@.interfaces =~= Seq::<InterfaceV>::empty());
        }
        r
    }

    /// The subclass id.
    pub fn id(&self) -> (r: u8)
        ensures
            r == self@.id,
    {
        self.id
    }

    /// The subclass's name.
    pub fn name(&self) -> (r: &str)
        ensures
            r@ == self@.name,
    {
        self.name.as_str()
    }

    /// The programming interfaces of this subclass, in file order.
    pub fn interfaces(&self) -> (r: &Vec<Interface>)
        ensures
            r.deep_view() == self@.interfaces,
    {
        &self.interfaces
    }

    /// Replaces the interface list with a fully collected one.
    pub(crate) fn set_interfaces(&mut self, interfaces: Vec<Interface>)
        ensures
            final(self)@ == (SubClassV { interfaces: interfaces.deep_view(), ..old(self)@ }),
    {
        self.interfaces = interfaces;
    }
}

impl Interface {
    /// Creates a programming interface with the given id and name.
    pub fn new(id: u8, name: String) -> (r: Self)
        ensures
            r@ == (InterfaceV { id, name: name@ }),
    {
        Self { id, name }
    }

    /// The interface id.
    pub fn id(&self) -> (r: u8)
        ensures
            r == self@.id,
    {
        self.id
    }

    /// The interface's name.
    pub fn name(&self) -> (r: &str)
        ensures
            r@ == self@.name,
    {
        self.name.as_str()
    }
}

} // verus!
