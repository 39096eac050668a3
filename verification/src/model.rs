//! The mathematical model of the scan: what one line does to the builder
//! state, what a whole text yields, and which failure it yields when it
//! fails.
//!
//! The builder keeps one scratch list per nesting depth ("the currently open
//! children").  A line at some depth first attaches the scratch list one
//! level below it to the previous node at its own depth (the flush), then
//! opens a new node.  The executable parser in [`crate::pci_ids`] is proved
//! to compute exactly [`parse_result`] of its input.

use crate::class::{ClassV, InterfaceV, SubClassV};
use crate::device_class::{class_of_byte, is_recognized_class};
use crate::hex::{hex_value, valid_hex};
use crate::text::{
    depth, first_sep, first_space, is_class_start, line_skipped, split_lines, trim,
};
use crate::vendor::{DeviceV, SubDeviceV, VendorV};
use vstd::prelude::*;

verus! {

/// The conditions on which a parse fails.
#[derive(Debug, Clone, Copy, PartialEq, Eq, Hash, Structural)]
pub enum ParseErrorKind {
    /// A non-comment line without the two-space field separator, or with an
    /// identifier field that does not have the shape its depth requires.
    MalformedLine,
    /// An identifier field that is not valid hexadecimal for its width.
    InvalidInteger,
    /// A class line whose byte has no [`crate::device_class::DeviceClass`].
    UnrecognizedClassByte,
}

/// A parse failure: the condition and the one-based number of the line that
/// raised it.
#[derive(Debug, Clone, Copy, PartialEq, Eq, Hash, Structural)]
pub struct ParseError {
    /// Which condition the line violated.
    pub kind: ParseErrorKind,
    /// One-based line number of the offending line.
    pub line: usize,
}

/// The builder state while scanning: the finished top-level lists, one
/// scratch list per nesting depth, and the two scan flags.
#[verifier::ext_equal]
pub struct ScanState {
    /// Whether the one-way transition into the class section has happened.
    pub in_class: bool,
    /// Whether the scan stopped early (skip-classes mode at the first class
    /// line).
    pub stopped: bool,
    /// Finished vendors, in file order; the last one is still open.
    pub vendors: Seq<VendorV>,
    /// Devices of the currently open vendor.
    pub devices: Seq<DeviceV>,
    /// Subdevices of the currently open device.
    pub subdevices: Seq<SubDeviceV>,
    /// Finished classes, in file order; the last one is still open.
    pub classes: Seq<ClassV>,
    /// Subclasses of the currently open class.
    pub subclasses: Seq<SubClassV>,
    /// Interfaces of the currently open subclass.
    pub interfaces: Seq<InterfaceV>,
}

/// The state before any line is scanned.
pub open spec fn init_state() -> ScanState {
    ScanState {
        in_class: false,
        stopped: false,
        vendors: Seq::<VendorV>::empty(),
        devices: Seq::<DeviceV>::empty(),
        subdevices: Seq::<SubDeviceV>::empty(),
        classes: Seq::<ClassV>::empty(),
        subclasses: Seq::<SubClassV>::empty(),
        interfaces: Seq::<InterfaceV>::empty(),
    }
}

/// Attaches the collected subdevices to the open (last) device; with no open
/// device they are discarded.
pub open spec fn attach_subdevices(
    devices: Seq<DeviceV>,
    subdevices: Seq<SubDeviceV>,
) -> Seq<DeviceV> {
    if devices.len() == 0 {
        devices
    } else {
        devices.update(devices.len() - 1, DeviceV { subdevices, ..devices.last() })
    }
}

/// Attaches the collected devices to the open (last) vendor; with no open
/// vendor they are discarded.
pub open spec fn attach_devices(vendors: Seq<VendorV>, devices: Seq<DeviceV>) -> Seq<VendorV> {
    if vendors.len() == 0 {
        vendors
    } else {
        vendors.update(vendors.len() - 1, VendorV { devices, ..vendors.last() })
    }
}

/// Attaches the collected interfaces to the open (last) subclass; with no
/// open subclass they are discarded.
pub open spec fn attach_interfaces(
    subclasses: Seq<SubClassV>,
    interfaces: Seq<InterfaceV>,
) -> Seq<SubClassV> {
    if subclasses.len() == 0 {
        subclasses
    } else {
        subclasses.update(subclasses.len() - 1, SubClassV { interfaces, ..subclasses.last() })
    }
}

/// Attaches the collected subclasses to the open (last) class; with no open
/// class they are discarded.
pub open spec fn attach_subclasses(
    classes: Seq<ClassV>,
    subclasses: Seq<SubClassV>,
) -> Seq<ClassV> {
    if classes.len() == 0 {
        classes
    } else {
        classes.update(classes.len() - 1, ClassV { subclasses, ..classes.last() })
    }
}

/// One vendor-section line: depth 0 opens a vendor, depth 1 a device,
/// depth 2 adds a subdevice.  `idf` is the trimmed identifier field and
/// `name` the trimmed name field of the line.
pub open spec fn scan_vendor_line(
    st: ScanState,
    l: Seq<char>,
    idf: Seq<char>,
    name: Seq<char>,
) -> Result<ScanState, ParseErrorKind> {
    let d = depth(l);
    if d == 0 {
        if valid_hex(idf) && hex_value(idf) <= 0xffff {
            Ok(ScanState {
                vendors: attach_devices(st.vendors, st.devices).push(
                    VendorV {
                        id: hex_value(idf) as u16,
                        name,
                        devices: Seq::<DeviceV>::empty(),
                    },
                ),
                devices: Seq::<DeviceV>::empty(),
                ..st
            })
        } else {
            Err(ParseErrorKind::InvalidInteger)
        }
    } else if d == 1 {
        if valid_hex(idf) && hex_value(idf) <= 0xffff {
            Ok(ScanState {
                devices: attach_subdevices(st.devices, st.subdevices).push(
                    DeviceV {
                        id: hex_value(idf) as u16,
                        name,
                        subdevices: Seq::<SubDeviceV>::empty(),
                    },
                ),
                subdevices: Seq::<SubDeviceV>::empty(),
                ..st
            })
        } else {
            Err(ParseErrorKind::InvalidInteger)
        }
    } else {
        match first_space(idf, 0) {
            None => Err(ParseErrorKind::MalformedLine),
            Some(k) => {
                let sv = idf.subrange(0, k);
                let sd = idf.subrange(k + 1, idf.len() as int);
                if valid_hex(sv) && hex_value(sv) <= 0xffff && valid_hex(sd) && hex_value(sd)
                    <= 0xffff {
                    Ok(ScanState {
                        subdevices: st.subdevices.push(
                            SubDeviceV {
                                subvendor_id: hex_value(sv) as u16,
                                subdevice_id: hex_value(sd) as u16,
                                name,
                            },
                        ),
                        ..st
                    })
                } else {
                    Err(ParseErrorKind::InvalidInteger)
                }
            },
        }
    }
}

/// One class-section line: depth 0 (a `C` line) opens a class, depth 1 a
/// subclass, depth 2 adds a programming interface.
pub open spec fn scan_class_line(
    st: ScanState,
    l: Seq<char>,
    idf: Seq<char>,
    name: Seq<char>,
) -> Result<ScanState, ParseErrorKind> {
    let d = depth(l);
    if d == 0 {
        if idf.len() >= 2 && idf[0] == 'C' && idf[1] == ' ' {
            let h = idf.subrange(2, idf.len() as int);
            if valid_hex(h) && hex_value(h) <= 0xff {
                if is_recognized_class(hex_value(h) as u8) {
                    Ok(ScanState {
                        classes: attach_subclasses(st.classes, st.subclasses).push(
                            ClassV {
                                class: class_of_byte(hex_value(h) as u8),
                                name,
                                subclasses: Seq::<SubClassV>::empty(),
                            },
                        ),
                        subclasses: Seq::<SubClassV>::empty(),
                        ..st
                    })
                } else {
                    Err(ParseErrorKind::UnrecognizedClassByte)
                }
            } else {
                Err(ParseErrorKind::InvalidInteger)
            }
        } else {
            Err(ParseErrorKind::MalformedLine)
        }
    } else if d == 1 {
        if valid_hex(idf) && hex_value(idf) <= 0xff {
            Ok(ScanState {
                subclasses: attach_interfaces(st.subclasses, st.interfaces).push(
                    SubClassV {
                        id: hex_value(idf) as u8,
                        name,
                        interfaces: Seq::<InterfaceV>::empty(),
                    },
                ),
                interfaces: Seq::<InterfaceV>::empty(),
                ..st
            })
        } else {
            Err(ParseErrorKind::InvalidInteger)
        }
    } else {
        if valid_hex(idf) && hex_value(idf) <= 0xff {
            Ok(ScanState {
                interfaces: st.interfaces.push(InterfaceV { id: hex_value(idf) as u8, name }),
                ..st
            })
        } else {
            Err(ParseErrorKind::InvalidInteger)
        }
    }
}

/// What one line does to the builder state.
///
/// Comments and blank lines change nothing.  Every other line must carry the
/// two-space separator.  A line whose first non-whitespace character is `C`
/// followed by a space enters (or continues) the class section; in
/// skip-classes mode the scan stops right there.  Vendor-section lines are
/// passed over in skip-vendors mode.
pub open spec fn scan_line(
    st: ScanState,
    l: Seq<char>,
    skip_vendors: bool,
    skip_classes: bool,
) -> Result<ScanState, ParseErrorKind> {
    if line_skipped(l) {
        Ok(st)
    } else {
        match first_sep(l, 0) {
            None => Err(ParseErrorKind::MalformedLine),
            Some(j) => {
                let idf = trim(l.subrange(0, j));
                let name = trim(l.subrange(j + 2, l.len() as int));
                let cls = is_class_start(l);
                if cls && skip_classes {
                    Ok(ScanState { stopped: true, ..st })
                } else if st.in_class || cls {
                    scan_class_line(ScanState { in_class: true, ..st }, l, idf, name)
                } else if skip_vendors {
                    Ok(st)
                } else {
                    scan_vendor_line(st, l, idf, name)
                }
            },
        }
    }
}

/// Scans the lines from index `i` on.  An error carries the one-based number
/// of the line that raised it; after an early stop the rest of the input is
/// not looked at.
pub open spec fn scan_lines(
    lines: Seq<Seq<char>>,
    i: int,
    st: ScanState,
    skip_vendors: bool,
    skip_classes: bool,
) -> Result<ScanState, ParseError>
    decreases lines.len() - i,
{
    if i < 0 || i >= lines.len() || st.stopped {
        Ok(st)
    } else {
        match scan_line(st, lines[i], skip_vendors, skip_classes) {
            Ok(st2) => scan_lines(lines, i + 1, st2, skip_vendors, skip_classes),
            Err(k) => Err(ParseError { kind: k, line: (i + 1) as usize }),
        }
    }
}

/// The end-of-input flush cascade, bottom up: subdevices into the last
/// device, devices into the last vendor, interfaces into the last subclass,
/// subclasses into the last class.
pub open spec fn finalize(st: ScanState) -> (Seq<VendorV>, Seq<ClassV>) {
    let devices = attach_subdevices(st.devices, st.subdevices);
    let vendors = attach_devices(st.vendors, devices);
    let subclasses = attach_interfaces(st.subclasses, st.interfaces);
    let classes = attach_subclasses(st.classes, subclasses);
    (vendors, classes)
}

/// What parsing a whole text yields: the vendor list and the class list, or
/// the failure of the first offending line.
pub open spec fn parse_result(
    data: Seq<char>,
    skip_vendors: bool,
    skip_classes: bool,
) -> Result<(Seq<VendorV>, Seq<ClassV>), ParseError> {
    match scan_lines(split_lines(data), 0, init_state(), skip_vendors, skip_classes) {
        Ok(st) => Ok(finalize(st)),
        Err(e) => Err(e),
    }
}

} // verus!
