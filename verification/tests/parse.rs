//! End-to-end tests of the parser on embedded database excerpts.

use pci_id::device_class::DeviceClass;
use pci_id::model::{ParseError, ParseErrorKind};
use pci_id::pci_ids::PciIds;

/// A small excerpt with both sections, shaped like the real database.
const SAMPLE: &str = "\
# PCI vendors and classes, excerpt
# Syntax:
# vendor  vendor_name

0e11  Compaq Computer Corporation
\t0046  Smart Array 64xx
\t\t0e11 4091  Smart Array 6i
\t\t0e11 409d  Smart Array 6400 EM
\t0049  NC7132 Gigabit Upgrade Module
1000  Broadcom / LSI
\t0001  53c810
# comment inside the vendor section
\t0002  53c820
\t\t1000 1000  LSI53C810AE PCI to SCSI I/O Processor

C 00  Unclassified device
\t00  Non-VGA unclassified device
C 0c  Serial bus controller
\t00  FireWire (IEEE 1394)
\t03  USB controller
\t\t00  UHCI
\t\tfe  USB Device
";

fn parsed(text: &str) -> PciIds {
    let mut pci_ids = PciIds::new();
    pci_ids
        .parse_lines(text.to_string(), false, false)
        .expect("sample must parse");
    pci_ids
}

#[test]
fn test_vendors_list() {
    let mut pci_ids = PciIds::new();
    pci_ids.parse_lines(SAMPLE.to_string(), false, true).unwrap();
    let res = pci_ids.vendors().iter().find(|&v| {
        v.id() == 0x0e11
            && v.name() == "Compaq Computer Corporation"
            && v.devices()
                .iter()
                .find(|&d| {
                    d.id() == 0x0046
                        && d.name() == "Smart Array 64xx"
                        && d.subdevices()
                            .iter()
                            .find(|&s| {
                                s.subvendor_id() == 0x0e11
                                    && s.subdevice_id() == 0x409d
                                    && s.name() == "Smart Array 6400 EM"
                            })
                            .is_some()
                })
                .is_some()
    });
    assert!(res.is_some());
}

#[test]
fn test_classes_list() {
    let mut pci_ids = PciIds::new();
    pci_ids.parse_lines(SAMPLE.to_string(), true, false).unwrap();
    let res = pci_ids.classes().iter().find(|&c| {
        u8::from(c.class()) == 0x0c
            && c.class().describe() == "Serial Bus Controller"
            && c.subclasses()
                .iter()
                .find(|&s| {
                    s.id() == 0x03
                        && s.name() == "USB controller"
                        && s.interfaces()
                            .iter()
                            .find(|&i| i.id() == 0xfe && i.name() == "USB Device")
                            .is_some()
                })
                .is_some()
    });
    println!("{:?}", res);
    assert!(res.is_some());
}

#[test]
fn parse_twice_identical() {
    let a = parsed(SAMPLE);
    let b = parsed(SAMPLE);
    assert_eq!(a, b);
}

#[test]
fn field_extraction_exact() {
    let cat = parsed(SAMPLE);
    let class = cat
        .classes()
        .iter()
        .find(|c| u8::from(c.class()) == 0x0c)
        .unwrap();
    assert_eq!(class.name(), "Serial bus controller");
    let sub = class.subclasses().iter().find(|s| s.id() == 0x03).unwrap();
    assert_eq!(sub.name(), "USB controller");
    let iface = sub.interfaces().iter().find(|i| i.id() == 0xfe).unwrap();
    assert_eq!(iface.name(), "USB Device");
}

#[test]
fn subdevice_name_exact() {
    let cat = parsed(SAMPLE);
    let vendor = cat.vendors().iter().find(|v| v.id() == 0x0e11).unwrap();
    let device = vendor.devices().iter().find(|d| d.id() == 0x0046).unwrap();
    let sub = device
        .subdevices()
        .iter()
        .find(|s| s.subvendor_id() == 0x0e11 && s.subdevice_id() == 0x409d)
        .unwrap();
    assert_eq!(sub.name(), "Smart Array 6400 EM");
}

#[test]
fn skip_vendors_gives_classes_only() {
    let mut cat = PciIds::new();
    cat.parse_lines(SAMPLE.to_string(), true, false).unwrap();
    assert!(cat.vendors().is_empty());
    assert!(!cat.classes().is_empty());
}

#[test]
fn skip_classes_gives_vendors_only() {
    let mut cat = PciIds::new();
    cat.parse_lines(SAMPLE.to_string(), false, true).unwrap();
    assert!(cat.classes().is_empty());
    assert!(!cat.vendors().is_empty());
}

#[test]
fn final_flush_without_trailing_newline() {
    // The text ends right after the deepest line: the open interface list
    // must still reach the last subclass, and the open subclass list the
    // last class.
    let text = "C 0c  Serial bus controller\n\t03  USB controller\n\t\tfe  USB Device";
    let cat = parsed(text);
    assert_eq!(cat.classes().len(), 1);
    let class = &cat.classes()[0];
    assert_eq!(class.subclasses().len(), 1);
    let sub = &class.subclasses()[0];
    assert_eq!(sub.id(), 0x03);
    assert_eq!(sub.interfaces().len(), 1);
    assert_eq!(sub.interfaces()[0].id(), 0xfe);
    assert_eq!(sub.interfaces()[0].name(), "USB Device");
}

#[test]
fn final_flush_vendor_branch() {
    let text = "0e11  Compaq\n\t0046  Smart Array 64xx\n\t\t0e11 409d  Smart Array 6400 EM";
    let cat = parsed(text);
    assert_eq!(cat.vendors().len(), 1);
    let vendor = &cat.vendors()[0];
    assert_eq!(vendor.devices().len(), 1);
    assert_eq!(vendor.devices()[0].subdevices().len(), 1);
    assert_eq!(vendor.devices()[0].subdevices()[0].name(), "Smart Array 6400 EM");
}

#[test]
fn invalid_hex_fails_and_leaves_catalog_untouched() {
    let mut cat = PciIds::new();
    let r = cat.parse_lines("0e11  Compaq\n0zzz  Broken\n".to_string(), false, false);
    assert_eq!(
        r,
        Err(ParseError {
            kind: ParseErrorKind::InvalidInteger,
            line: 2
        })
    );
    assert!(cat.vendors().is_empty());
    assert!(cat.classes().is_empty());
}

#[test]
fn invalid_hex_in_subdevice_field() {
    let mut cat = PciIds::new();
    let r = cat.parse_lines(
        "0e11  Compaq\n\t0046  Array\n\t\t0e11 40g1  Bad\n".to_string(),
        false,
        false,
    );
    assert_eq!(
        r,
        Err(ParseError {
            kind: ParseErrorKind::InvalidInteger,
            line: 3
        })
    );
}

#[test]
fn overflowing_hex_is_invalid() {
    let mut cat = PciIds::new();
    let r = cat.parse_lines("12345  Too wide\n".to_string(), false, false);
    assert_eq!(
        r,
        Err(ParseError {
            kind: ParseErrorKind::InvalidInteger,
            line: 1
        })
    );
    let mut cat = PciIds::new();
    let r = cat.parse_lines("C 100  Too wide a class\n".to_string(), false, false);
    assert_eq!(
        r,
        Err(ParseError {
            kind: ParseErrorKind::InvalidInteger,
            line: 1
        })
    );
}

#[test]
fn missing_separator_is_malformed() {
    let mut cat = PciIds::new();
    let r = cat.parse_lines("# leading comment\n0e11 OnlyOneSpace\n".to_string(), false, false);
    assert_eq!(
        r,
        Err(ParseError {
            kind: ParseErrorKind::MalformedLine,
            line: 2
        })
    );
    assert!(cat.vendors().is_empty());
}

#[test]
fn subdevice_field_without_space_is_malformed() {
    let mut cat = PciIds::new();
    let r = cat.parse_lines(
        "0e11  Compaq\n\t0046  Array\n\t\t0e114091  Glued\n".to_string(),
        false,
        false,
    );
    assert_eq!(
        r,
        Err(ParseError {
            kind: ParseErrorKind::MalformedLine,
            line: 3
        })
    );
}

#[test]
fn invalid_hex_in_subclass_and_interface_fields() {
    let mut cat = PciIds::new();
    let r = cat.parse_lines(
        "C 0c  Serial bus controller\n\tg3  Bad subclass\n".to_string(),
        false,
        false,
    );
    assert_eq!(
        r,
        Err(ParseError {
            kind: ParseErrorKind::InvalidInteger,
            line: 2
        })
    );
    let mut cat = PciIds::new();
    let r = cat.parse_lines(
        "C 0c  Serial bus controller\n\t03  USB controller\n\t\txx  Bad interface\n".to_string(),
        false,
        false,
    );
    assert_eq!(
        r,
        Err(ParseError {
            kind: ParseErrorKind::InvalidInteger,
            line: 3
        })
    );
}

#[test]
fn class_line_without_byte_is_malformed() {
    let mut cat = PciIds::new();
    let r = cat.parse_lines("C  Missing byte\n".to_string(), false, false);
    assert_eq!(
        r,
        Err(ParseError {
            kind: ParseErrorKind::MalformedLine,
            line: 1
        })
    );
}

#[test]
fn skipping_both_sections_scans_for_errors_only() {
    let mut cat = PciIds::new();
    cat.parse_lines(SAMPLE.to_string(), true, true).unwrap();
    assert!(cat.vendors().is_empty());
    assert!(cat.classes().is_empty());
    let mut cat = PciIds::new();
    let r = cat.parse_lines("no separator here\n".to_string(), true, true);
    assert_eq!(
        r,
        Err(ParseError {
            kind: ParseErrorKind::MalformedLine,
            line: 1
        })
    );
}

#[test]
fn unrecognized_class_byte_fails() {
    let mut cat = PciIds::new();
    let r = cat.parse_lines("C 37  No such category\n".to_string(), false, false);
    assert_eq!(
        r,
        Err(ParseError {
            kind: ParseErrorKind::UnrecognizedClassByte,
            line: 1
        })
    );
}

#[test]
fn empty_and_comment_only_inputs() {
    let mut cat = PciIds::new();
    cat.parse_lines(String::new(), false, false).unwrap();
    assert!(cat.vendors().is_empty());
    assert!(cat.classes().is_empty());
    cat.parse_lines("# nothing here\n\n   \n".to_string(), false, false)
        .unwrap();
    assert!(cat.vendors().is_empty());
    assert!(cat.classes().is_empty());
}

#[test]
fn uppercase_hex_accepted() {
    let cat = parsed("0E11  Compaq Computer Corporation\n");
    assert_eq!(cat.vendors().len(), 1);
    assert_eq!(cat.vendors()[0].id(), 0x0e11);
}

#[test]
fn depth_beyond_two_tabs_counts_as_two() {
    let cat = parsed("0e11  Compaq\n\t0046  Array\n\t\t\t0e11 409d  Deep\n");
    let vendor = &cat.vendors()[0];
    assert_eq!(vendor.devices()[0].subdevices().len(), 1);
    assert_eq!(vendor.devices()[0].subdevices()[0].name(), "Deep");
}

#[test]
fn carriage_returns_are_trimmed() {
    let cat = parsed("0e11  Compaq Computer Corporation\r\n\t0046  Smart Array 64xx\r\n");
    let vendor = &cat.vendors()[0];
    assert_eq!(vendor.name(), "Compaq Computer Corporation");
    assert_eq!(vendor.devices()[0].name(), "Smart Array 64xx");
}

#[test]
fn class_section_is_one_way() {
    // After the first class line, even digit-led lines belong to the class
    // section; a depth-zero line there must carry the C marker.
    let mut cat = PciIds::new();
    let r = cat.parse_lines(
        "C 0c  Serial bus controller\n0e11  Late vendor\n".to_string(),
        false,
        false,
    );
    assert_eq!(
        r,
        Err(ParseError {
            kind: ParseErrorKind::MalformedLine,
            line: 2
        })
    );
}

#[test]
fn parse_appends_to_existing_catalog() {
    let mut cat = PciIds::new();
    cat.parse_lines("0e11  Compaq\n".to_string(), false, false).unwrap();
    cat.parse_lines("1000  Broadcom / LSI\n".to_string(), false, false)
        .unwrap();
    assert_eq!(cat.vendors().len(), 2);
    assert_eq!(cat.vendors()[0].id(), 0x0e11);
    assert_eq!(cat.vendors()[1].id(), 0x1000);
}

#[test]
fn vendor_after_subdevice_closes_previous_vendor() {
    // A depth-zero vendor line attaches the open device list to the
    // previous vendor; only a following device line or the end of input
    // flushes the subdevice scratch list, so a subdevice still open when
    // the vendor changes is not carried into the next vendor.
    let cat = parsed(
        "0e11  Compaq\n\t0046  Array\n\t\t0e11 409d  Orphan\n1000  Broadcom / LSI\n\t0001  53c810\n\t\t1000 2000  Kept\n",
    );
    assert_eq!(cat.vendors().len(), 2);
    assert_eq!(cat.vendors()[0].devices().len(), 1);
    assert_eq!(cat.vendors()[0].devices()[0].id(), 0x0046);
    assert_eq!(cat.vendors()[0].devices()[0].subdevices().len(), 0);
    assert_eq!(cat.vendors()[1].devices().len(), 1);
    assert_eq!(cat.vendors()[1].devices()[0].id(), 0x0001);
    assert_eq!(cat.vendors()[1].devices()[0].subdevices().len(), 1);
    assert_eq!(cat.vendors()[1].devices()[0].subdevices()[0].name(), "Kept");
}

#[test]
fn device_class_conversions() {
    assert_eq!(DeviceClass::try_from(0x0c), Ok(DeviceClass::SerialBusController));
    assert_eq!(u8::from(DeviceClass::SerialBusController), 0x0c);
    assert_eq!(DeviceClass::try_from(0x40), Ok(DeviceClass::Coprocessor));
    assert_eq!(DeviceClass::try_from(0xff), Ok(DeviceClass::Unassigned));
    assert!(DeviceClass::try_from(0x37).is_err());
    for b in 0x00..=0x13u8 {
        let c = DeviceClass::try_from(b).unwrap();
        assert_eq!(u8::from(c), b);
    }
}

#[test]
fn device_class_descriptions() {
    assert_eq!(DeviceClass::Unclassified.describe(), "Unclassified");
    assert_eq!(
        DeviceClass::SerialBusController.describe(),
        "Serial Bus Controller"
    );
    assert_eq!(
        DeviceClass::SatelliteCommunicationsController.describe(),
        "Satellite Communications Controller"
    );
    assert_eq!(
        DeviceClass::ProcessingAccelerator.describe(),
        "Processing Accelerators"
    );
}
