//! The catalog and the single-pass parser that fills it.
//!
//! [`PciIds::parse_lines`] scans the database text once, line by line, and
//! appends the vendors and classes it finds.  Its contract says that what it
//! appends is exactly [`parse_result`] of the input text, that it succeeds
//! if and only if the model does, and that a failing parse leaves the
//! catalog untouched.

use crate::class::{Class, ClassV, Interface, InterfaceV, SubClass, SubClassV};
use crate::hex::{parse_hex16, parse_hex8};
use crate::model::{
    attach_devices, attach_interfaces, attach_subclasses, attach_subdevices, init_state,
    parse_result, scan_line, scan_lines, ParseError, ParseErrorKind, ScanState,
};
use crate::text::{
    class_start_exec, depth_exec, find_sep, find_space, lemma_first_sep_some,
    lemma_first_space_some, line_skipped_exec, split_lines, split_lines_exec, trim_exec,
};
use crate::vendor::{Device, DeviceV, SubDevice, SubDeviceV, Vendor, VendorV};
use vstd::prelude::*;

verus! {

/// Abstract content of a [`PciIds`] catalog.
pub struct PciIdsV {
    pub vendors: Seq<VendorV>,
    pub classes: Seq<ClassV>,
}

/// The catalog: the ordered list of vendors and the ordered list of classes
/// found in a database text.
#[derive(Debug, PartialEq, Eq, Hash, Clone)]
pub struct PciIds {
    vendors: Vec<Vendor>,
    classes: Vec<Class>,
}

impl View for PciIds {
    type V = PciIdsV;

    closed spec fn view(&self) -> PciIdsV {
        PciIdsV { vendors: self.vendors.deep_view(), classes: self.classes.deep_view() }
    }
}

/// The scratch state of the scan, as one abstract value.
spec fn state_of(
    in_class: bool,
    stopped: bool,
    vendors: Seq<VendorV>,
    devices: Seq<DeviceV>,
    subdevices: Seq<SubDeviceV>,
    classes: Seq<ClassV>,
    subclasses: Seq<SubClassV>,
    interfaces: Seq<InterfaceV>,
) -> ScanState {
    ScanState { in_class, stopped, vendors, devices, subdevices, classes, subclasses, interfaces }
}

/// Attaches the collected subdevices to the open (last) device.
fn flush_subdevices(devices: &mut Vec<Device>, subdevices: Vec<SubDevice>)
    ensures
        final(devices).deep_view() == attach_subdevices(
            old(devices).deep_view(),
            subdevices.deep_view(),
        ),
{
    if devices.len() > 0 {
        let mut d = devices.pop().unwrap();
        d.set_subdevices(subdevices);
        devices.push(d);
        proof {
            let s0 = old(devices).deep_view();
            assert(devices.deep_view() =~= s0.update(
                s0.len() - 1,
                DeviceV { subdevices: subdevices.deep_view(), ..s0.last() },
            ));
        }
    }
}

/// Attaches the collected devices to the open (last) vendor.
fn flush_devices(vendors: &mut Vec<Vendor>, devices: Vec<Device>)
    ensures
        final(vendors).deep_view() == attach_devices(
            old(vendors).deep_view(),
            devices.deep_view(),
        ),
{
    if vendors.len() > 0 {
        let mut v = vendors.pop().unwrap();
        v.set_devices(devices);
        vendors.push(v);
        proof {
            let s0 = old(vendors).deep_view();
            assert(vendors.deep_view() =~= s0.update(
                s0.len() - 1,
                VendorV { devices: devices.deep_view(), ..s0.last() },
            ));
        }
    }
}

/// Attaches the collected interfaces to the open (last) subclass.
fn flush_interfaces(subclasses: &mut Vec<SubClass>, interfaces: Vec<Interface>)
    ensures
        final(subclasses).deep_view() == attach_interfaces(
            old(subclasses).deep_view(),
            interfaces.deep_view(),
        ),
{
    if subclasses.len() > 0 {
        let mut s = subclasses.pop().unwrap();
        s.set_interfaces(interfaces);
        subclasses.push(s);
        proof {
            let s0 = old(subclasses).deep_view();
            assert(subclasses.deep_view() =~= s0.update(
                s0.len() - 1,
                SubClassV { interfaces: interfaces.deep_view(), ..s0.last() },
            ));
        }
    }
}

/// Attaches the collected subclasses to the open (last) class.
fn flush_subclasses(classes: &mut Vec<Class>, subclasses: Vec<SubClass>)
    ensures
        final(classes).deep_view() == attach_subclasses(
            old(classes).deep_view(),
            subclasses.deep_view(),
        ),
{
    if classes.len() > 0 {
        let mut c = classes.pop().unwrap();
        c.set_subclasses(subclasses);
        classes.push(c);
        proof {
            let s0 = old(classes).deep_view();
            assert(classes.deep_view() =~= s0.update(
                s0.len() - 1,
                ClassV { subclasses: subclasses.deep_view(), ..s0.last() },
            ));
        }
    }
}

impl PciIds {
    /// Creates a catalog with empty vendor and class lists.
    pub fn new() -> (r: Self)
        ensures
            r@.vendors == Seq::<VendorV>::empty(),
            r@.classes == Seq::<ClassV>::empty(),
    {
        let r = Self { vendors: Vec::new(), classes: Vec::new() };
        proof {
            assert(r@.vendors =~= Seq::<VendorV>::empty());
            assert(r@.classes =~= Seq::<ClassV>::empty());
        }
        r
    }

    /// The vendors, in file order.
    pub fn vendors(&self) -> (r: &Vec<Vendor>)
        ensures
            r.deep_view() == self@.vendors,
    {
        &self.vendors
    }

    /// The classes, in file order.
    pub fn classes(&self) -> (r: &Vec<Class>)
        ensures
            r.deep_view() == self@.classes,
    {
        &self.classes
    }

    /// Scans a database text once and appends every vendor and class it
    /// describes, exactly as the model [`parse_result`] says; a failing
    /// parse reports the first offending line and leaves the catalog
    /// untouched.
    ///
    /// With `skip_vendors` the vendor section is passed over; with
    /// `skip_classes` the scan stops at the first class line.
    pub fn parse_lines(&mut self, data: String, skip_vendors: bool, skip_classes: bool) -> (r:
        Result<(), ParseError>)
        ensures
            match parse_result(data@, skip_vendors, skip_classes) {
                Ok(vc) => r is Ok && final(self)@.vendors == old(self)@.vendors + vc.0
                    && final(self)@.classes == old(self)@.classes + vc.1,
                Err(e) => r == Err::<(), ParseError>(e) && *final(self) == *old(self),
            },
    {
        let ghost ls = split_lines(data@);
        let lines = split_lines_exec(data.as_str());
        let n = lines.len();
        let mut vendors: Vec<Vendor> = Vec::new();
        let mut devices: Vec<Device> = Vec::new();
        let mut subdevices: Vec<SubDevice> = Vec::new();
        let mut classes: Vec<Class> = Vec::new();
        let mut subclasses: Vec<SubClass> = Vec::new();
        let mut interfaces: Vec<Interface> = Vec::new();
        let mut in_class = false;
        let mut stopped = false;
        let mut i: usize = 0;
        proof {
            assert(state_of(
                in_class,
                stopped,
                vendors.deep_view(),
                devices.deep_view(),
                subdevices.deep_view(),
                classes.deep_view(),
                subclasses.deep_view(),
                interfaces.deep_view(),
            ) =~= init_state());
        }
        while i < n && !stopped
            invariant
                n == lines@.len(),
                0 <= i <= n,
                lines.deep_view() == ls,
                ls == split_lines(data@),
                scan_lines(ls, 0, init_state(), skip_vendors, skip_classes) == scan_lines(
                    ls,
                    i as int,
                    state_of(
                        in_class,
                        stopped,
                        vendors.deep_view(),
                        devices.deep_view(),
                        subdevices.deep_view(),
                        classes.deep_view(),
                        subclasses.deep_view(),
                        interfaces.deep_view(),
                    ),
                    skip_vendors,
                    skip_classes,
                ),
            decreases n - i,
        {
            let ghost st = state_of(
                in_class,
                stopped,
                vendors.deep_view(),
                devices.deep_view(),
                subdevices.deep_view(),
                classes.deep_view(),
                subclasses.deep_view(),
                interfaces.deep_view(),
            );
            let line: &str = lines[i].as_str();
            let ghost l = ls[i as int];
            proof {
                assert(lines.deep_view()[i as int] == lines@[i as int]@);
                assert(line@ == l);
            }
            if line_skipped_exec(line) {
                proof {
                    assert(scan_line(st, l, skip_vendors, skip_classes) == Ok::<
                        ScanState,
                        ParseErrorKind,
                    >(st));
                }
                i = i + 1;
                continue ;
            }
            let sep = find_sep(line);
            if sep.is_none() {
                proof {
                    assert(scan_line(st, l, skip_vendors, skip_classes) == Err::<
                        ScanState,
                        ParseErrorKind,
                    >(ParseErrorKind::MalformedLine));
                }
                return Err(ParseError { kind: ParseErrorKind::MalformedLine, line: i + 1 });
            }
            let j = sep.unwrap();
            proof {
                lemma_first_sep_some(l, 0, j as int);
            }
            let llen = line.unicode_len();
            let idf = trim_exec(line.substring_char(0, j));
            let name = trim_exec(line.substring_char(j + 2, llen)).to_owned();
            let ghost namev = name@;
            let cls = class_start_exec(line);
            if cls && skip_classes {
                stopped = true;
                proof {
                    let st2 = state_of(
                        in_class,
                        stopped,
                        vendors.deep_view(),
                        devices.deep_view(),
                        subdevices.deep_view(),
                        classes.deep_view(),
                        subclasses.deep_view(),
                        interfaces.deep_view(),
                    );
                    assert(st2 =~= (ScanState { stopped: true, ..st }));
                    assert(scan_line(st, l, skip_vendors, skip_classes) == Ok::<
                        ScanState,
                        ParseErrorKind,
                    >(st2));
                }
                i = i + 1;
            } else if in_class || cls {
                let ghost stc = ScanState { in_class: true, ..st };
                in_class = true;
                let d = depth_exec(line);
                if d == 0 {
                    let idf_len = idf.unicode_len();
                    if !(idf_len >= 2 && idf.get_char(0) == 'C' && idf.get_char(1) == ' ') {
                        proof {
                            assert(scan_line(st, l, skip_vendors, skip_classes) == Err::<
                                ScanState,
                                ParseErrorKind,
                            >(ParseErrorKind::MalformedLine));
                        }
                        return Err(ParseError { kind: ParseErrorKind::MalformedLine, line: i + 1 });
                    }
                    let h = idf.substring_char(2, idf_len);
                    match parse_hex8(h) {
                        None => {
                            proof {
                                assert(scan_line(st, l, skip_vendors, skip_classes) == Err::<
                                    ScanState,
                                    ParseErrorKind,
                                >(ParseErrorKind::InvalidInteger));
                            }
                            return Err(
                                ParseError { kind: ParseErrorKind::InvalidInteger, line: i + 1 },
                            );
                        },
                        Some(b) => {
                            if !(b <= 0x13 || b == 0x40 || b == 0xff) {
                                proof {
                                    assert(scan_line(st, l, skip_vendors, skip_classes) == Err::<
                                        ScanState,
                                        ParseErrorKind,
                                    >(ParseErrorKind::UnrecognizedClassByte));
                                }
                                return Err(
                                    ParseError {
                                        kind: ParseErrorKind::UnrecognizedClassByte,
                                        line: i + 1,
                                    },
                                );
                            }
                            flush_subclasses(&mut classes, subclasses);
                            classes.push(Class::new(b, name));
                            subclasses = Vec::new();
                            proof {
                                let st2 = state_of(
                                    in_class,
                                    stopped,
                                    vendors.deep_view(),
                                    devices.deep_view(),
                                    subdevices.deep_view(),
                                    classes.deep_view(),
                                    subclasses.deep_view(),
                                    interfaces.deep_view(),
                                );
                                assert(classes.deep_view() =~= attach_subclasses(
                                    stc.classes,
                                    stc.subclasses,
                                ).push(
                                    ClassV {
                                        class: crate::device_class::class_of_byte(b),
                                        name: namev,
                                        subclasses: Seq::<SubClassV>::empty(),
                                    },
                                ));
                                assert(subclasses.deep_view() =~= Seq::<SubClassV>::empty());
                                let res = scan_line(st, l, skip_vendors, skip_classes);
                                assert(res is Ok);
                                assert(res->Ok_0 =~= st2);
                            }
                            i = i + 1;
                        },
                    }
                } else if d == 1 {
                    match parse_hex8(idf) {
                        None => {
                            proof {
                                assert(scan_line(st, l, skip_vendors, skip_classes) == Err::<
                                    ScanState,
                                    ParseErrorKind,
                                >(ParseErrorKind::InvalidInteger));
                            }
                            return Err(
                                ParseError { kind: ParseErrorKind::InvalidInteger, line: i + 1 },
                            );
                        },
                        Some(b) => {
                            flush_interfaces(&mut subclasses, interfaces);
                            subclasses.push(SubClass::new(b, name));
                            interfaces = Vec::new();
                            proof {
                                let st2 = state_of(
                                    in_class,
                                    stopped,
                                    vendors.deep_view(),
                                    devices.deep_view(),
                                    subdevices.deep_view(),
                                    classes.deep_view(),
                                    subclasses.deep_view(),
                                    interfaces.deep_view(),
                                );
                                assert(subclasses.deep_view() =~= attach_interfaces(
                                    stc.subclasses,
                                    stc.interfaces,
                                ).push(
                                    SubClassV {
                                        id: b,
                                        name: namev,
                                        interfaces: Seq::<InterfaceV>::empty(),
                                    },
                                ));
                                assert(interfaces.deep_view() =~= Seq::<InterfaceV>::empty());
                                let res = scan_line(st, l, skip_vendors, skip_classes);
                                assert(res is Ok);
                                assert(res->Ok_0 =~= st2);
                            }
                            i = i + 1;
                        },
                    }
                } else {
                    match parse_hex8(idf) {
                        None => {
                            proof {
                                assert(scan_line(st, l, skip_vendors, skip_classes) == Err::<
                                    ScanState,
                                    ParseErrorKind,
                                >(ParseErrorKind::InvalidInteger));
                            }
                            return Err(
                                ParseError { kind: ParseErrorKind::InvalidInteger, line: i + 1 },
                            );
                        },
                        Some(b) => {
                            interfaces.push(Interface::new(b, name));
                            proof {
                                let st2 = state_of(
                                    in_class,
                                    stopped,
                                    vendors.deep_view(),
                                    devices.deep_view(),
                                    subdevices.deep_view(),
                                    classes.deep_view(),
                                    subclasses.deep_view(),
                                    interfaces.deep_view(),
                                );
                                assert(interfaces.deep_view() =~= stc.interfaces.push(
                                    InterfaceV { id: b, name: namev },
                                ));
                                let res = scan_line(st, l, skip_vendors, skip_classes);
                                assert(res is Ok);
                                assert(res->Ok_0 =~= st2);
                            }
                            i = i + 1;
                        },
                    }
                }
            } else if skip_vendors {
                proof {
                    assert(scan_line(st, l, skip_vendors, skip_classes) == Ok::<
                        ScanState,
                        ParseErrorKind,
                    >(st));
                }
                i = i + 1;
            } else {
                let d = depth_exec(line);
                if d == 0 {
                    match parse_hex16(idf) {
                        None => {
                            proof {
                                assert(scan_line(st, l, skip_vendors, skip_classes) == Err::<
                                    ScanState,
                                    ParseErrorKind,
                                >(ParseErrorKind::InvalidInteger));
                            }
                            return Err(
                                ParseError { kind: ParseErrorKind::InvalidInteger, line: i + 1 },
                            );
                        },
                        Some(v) => {
                            flush_devices(&mut vendors, devices);
                            vendors.push(Vendor::new(v, name));
                            devices = Vec::new();
                            proof {
                                let st2 = state_of(
                                    in_class,
                                    stopped,
                                    vendors.deep_view(),
                                    devices.deep_view(),
                                    subdevices.deep_view(),
                                    classes.deep_view(),
                                    subclasses.deep_view(),
                                    interfaces.deep_view(),
                                );
                                assert(vendors.deep_view() =~= attach_devices(
                                    st.vendors,
                                    st.devices,
                                ).push(
                                    VendorV {
                                        id: v,
                                        name: namev,
                                        devices: Seq::<DeviceV>::empty(),
                                    },
                                ));
                                assert(devices.deep_view() =~= Seq::<DeviceV>::empty());
                                let res = scan_line(st, l, skip_vendors, skip_classes);
                                assert(res is Ok);
                                assert(res->Ok_0 =~= st2);
                            }
                            i = i + 1;
                        },
                    }
                } else if d == 1 {
                    match parse_hex16(idf) {
                        None => {
                            proof {
                                assert(scan_line(st, l, skip_vendors, skip_classes) == Err::<
                                    ScanState,
                                    ParseErrorKind,
                                >(ParseErrorKind::InvalidInteger));
                            }
                            return Err(
                                ParseError { kind: ParseErrorKind::InvalidInteger, line: i + 1 },
                            );
                        },
                        Some(v) => {
                            flush_subdevices(&mut devices, subdevices);
                            devices.push(Device::new(v, name));
                            subdevices = Vec::new();
                            proof {
                                let st2 = state_of(
                                    in_class,
                                    stopped,
                                    vendors.deep_view(),
                                    devices.deep_view(),
                                    subdevices.deep_view(),
                                    classes.deep_view(),
                                    subclasses.deep_view(),
                                    interfaces.deep_view(),
                                );
                                assert(devices.deep_view() =~= attach_subdevices(
                                    st.devices,
                                    st.subdevices,
                                ).push(
                                    DeviceV {
                                        id: v,
                                        name: namev,
                                        subdevices: Seq::<SubDeviceV>::empty(),
                                    },
                                ));
                                assert(subdevices.deep_view() =~= Seq::<SubDeviceV>::empty());
                                let res = scan_line(st, l, skip_vendors, skip_classes);
                                assert(res is Ok);
                                assert(res->Ok_0 =~= st2);
                            }
                            i = i + 1;
                        },
                    }
                } else {
                    let sp = find_space(idf);
                    if sp.is_none() {
                        proof {
                            assert(scan_line(st, l, skip_vendors, skip_classes) == Err::<
                                ScanState,
                                ParseErrorKind,
                            >(ParseErrorKind::MalformedLine));
                        }
                        return Err(ParseError { kind: ParseErrorKind::MalformedLine, line: i + 1 });
                    }
                    let k = sp.unwrap();
                    proof {
                        lemma_first_space_some(idf@, 0, k as int);
                    }
                    let idf_len = idf.unicode_len();
                    let sv_part = idf.substring_char(0, k);
                    let sd_part = idf.substring_char(k + 1, idf_len);
                    let sv_id = parse_hex16(sv_part);
                    let sd_id = parse_hex16(sd_part);
                    if sv_id.is_none() || sd_id.is_none() {
                        proof {
                            assert(scan_line(st, l, skip_vendors, skip_classes) == Err::<
                                ScanState,
                                ParseErrorKind,
                            >(ParseErrorKind::InvalidInteger));
                        }
                        return Err(ParseError { kind: ParseErrorKind::InvalidInteger, line: i + 1 });
                    }
                    subdevices.push(SubDevice::new(sv_id.unwrap(), sd_id.unwrap(), name));
                    proof {
                        let st2 = state_of(
                            in_class,
                            stopped,
                            vendors.deep_view(),
                            devices.deep_view(),
                            subdevices.deep_view(),
                            classes.deep_view(),
                            subclasses.deep_view(),
                            interfaces.deep_view(),
                        );
                        let res = scan_line(st, l, skip_vendors, skip_classes);
                        assert(res is Ok);
                        assert(res->Ok_0 =~= st2);
                    }
                    i = i + 1;
                }
            }
        }
        let ghost st = state_of(
            in_class,
            stopped,
            vendors.deep_view(),
            devices.deep_view(),
            subdevices.deep_view(),
            classes.deep_view(),
            subclasses.deep_view(),
            interfaces.deep_view(),
        );
        proof {
            assert(scan_lines(ls, i as int, st, skip_vendors, skip_classes) == Ok::<
                ScanState,
                ParseError,
            >(st));
        }
        flush_subdevices(&mut devices, subdevices);
        flush_devices(&mut vendors, devices);
        flush_interfaces(&mut subclasses, interfaces);
        flush_subclasses(&mut classes, subclasses);
        proof {
            assert(vendors.deep_view() == crate::model::finalize(st).0);
            assert(classes.deep_view() == crate::model::finalize(st).1);
        }
        self.vendors.append(&mut vendors);
        self.classes.append(&mut classes);
        proof {
            assert(self@.vendors =~= old(self)@.vendors + crate::model::finalize(st).0);
            assert(self@.classes =~= old(self)@.classes + crate::model::finalize(st).1);
        }
        Ok(())
    }
}

impl Default for PciIds {
    /// A catalog with empty vendor and class lists.
    fn default() -> (r: Self)
        ensures
            r@.vendors == Seq::<VendorV>::empty(),
            r@.classes == Seq::<ClassV>::empty(),
    {
        Self::new()
    }
}

} // verus!
