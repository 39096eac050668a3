//! Laws of the parser, stated over the model in [`crate::model`] and proved
//! once and for all: determinism, what the two skip modes yield, the
//! end-of-input flush, and which failure the first offending line raises.

use crate::model::{
    attach_interfaces, attach_subdevices, finalize, init_state, parse_result, scan_line,
    scan_lines, ParseError, ParseErrorKind, ScanState,
};
use crate::hex::{hex_value, valid_hex};
use crate::text::{
    depth, first_sep, is_class_start, is_ws, line_skipped, split_lines, trim, trim_left,
    trim_right,
};
use crate::vendor::VendorV;
use crate::class::ClassV;
use vstd::prelude::*;

verus! {

/// A line that opens a class: first non-whitespace character `C` followed by
/// a space, at depth zero.
pub open spec fn class_opening_line(l: Seq<char>) -> bool {
    is_class_start(l) && depth(l) == 0
}

/// A line that opens a vendor: a scanned depth-zero line of the vendor
/// section.
pub open spec fn vendor_opening_line(l: Seq<char>) -> bool {
    !line_skipped(l) && depth(l) == 0 && !is_class_start(l)
}

/// Some line of `lines` opens a vendor while the scan is still in the vendor
/// section: no line up to it is a class start.
pub open spec fn has_vendor_line_before_class_section(lines: Seq<Seq<char>>, j: int) -> bool {
    0 <= j < lines.len() && vendor_opening_line(lines[j]) && (forall|t: int|
        0 <= t <= j ==> !is_class_start(lines[t]))
}

proof fn lemma_trim_right_empty_all_ws(l: Seq<char>)
    requires
        trim_right(l).len() == 0,
    ensures
        forall|i: int| 0 <= i < l.len() ==> is_ws(l[i]),
    decreases l.len(),
{
    if l.len() > 0 {
        assert(is_ws(l.last()));
        lemma_trim_right_empty_all_ws(l.drop_last());
        assert forall|i: int| 0 <= i < l.len() implies is_ws(l[i]) by {
            if i < l.len() - 1 {
                assert(is_ws(l.drop_last()[i]));
            }
        }
    }
}

proof fn lemma_trim_left_all_ws(l: Seq<char>)
    requires
        forall|i: int| 0 <= i < l.len() ==> is_ws(l[i]),
    ensures
        trim_left(l).len() == 0,
    decreases l.len(),
{
    if l.len() > 0 {
        lemma_trim_left_all_ws(l.drop_first());
    }
}

/// A class-start line is neither a comment nor blank, so the scanner never
/// passes it over.
proof fn lemma_class_start_not_skipped(l: Seq<char>)
    requires
        is_class_start(l),
    ensures
        !line_skipped(l),
{
    if l.len() > 0 && l[0] == '#' {
        assert(trim_left(l) == l);
    }
    if trim_right(l).len() == 0 {
        lemma_trim_right_empty_all_ws(l);
        lemma_trim_left_all_ws(l);
    }
}

/// One accepted line never shrinks the vendor or class lists, and without
/// skip-classes never stops the scan.
proof fn lemma_scan_line_monotone(st: ScanState, l: Seq<char>, skip_vendors: bool, skip_classes: bool)
    ensures
        scan_line(st, l, skip_vendors, skip_classes) matches Ok(st2) ==> st2.vendors.len()
            >= st.vendors.len() && st2.classes.len() >= st.classes.len() && (!skip_classes
            && !st.stopped ==> !st2.stopped),
{
}

/// An accepted class-opening line grows the class list (without
/// skip-classes).
proof fn lemma_scan_line_class_step(st: ScanState, l: Seq<char>, skip_vendors: bool)
    requires
        class_opening_line(l),
    ensures
        scan_line(st, l, skip_vendors, false) matches Ok(st2) ==> st2.classes.len()
            > st.classes.len(),
{
    lemma_class_start_not_skipped(l);
}

/// While no class start has appeared, the scan stays in the vendor section,
/// and an accepted vendor-opening line grows the vendor list.
proof fn lemma_scan_line_vendor_step(st: ScanState, l: Seq<char>, skip_classes: bool)
    requires
        !st.in_class,
        !is_class_start(l),
    ensures
        scan_line(st, l, false, skip_classes) matches Ok(st2) ==> !st2.in_class && (!st.stopped
            ==> !st2.stopped) && (vendor_opening_line(l) ==> st2.vendors.len() > st.vendors.len()),
{
}

proof fn lemma_scan_lines_reaches_class(
    lines: Seq<Seq<char>>,
    i: int,
    st: ScanState,
    skip_vendors: bool,
)
    requires
        0 <= i,
        scan_lines(lines, i, st, skip_vendors, false) is Ok,
        st.classes.len() > 0 || (!st.stopped && exists|j: int|
            i <= j < lines.len() && class_opening_line(#[trigger] lines[j])),
    ensures
        scan_lines(lines, i, st, skip_vendors, false)->Ok_0.classes.len() > 0,
    decreases lines.len() - i,
{
    if i >= lines.len() || st.stopped {
        assert(st.classes.len() > 0);
    } else {
        let r1 = scan_line(st, lines[i], skip_vendors, false);
        let st2 = r1->Ok_0;
        assert(r1 is Ok);
        lemma_scan_line_monotone(st, lines[i], skip_vendors, false);
        if st.classes.len() > 0 {
            lemma_scan_lines_reaches_class(lines, i + 1, st2, skip_vendors);
        } else if class_opening_line(lines[i]) {
            lemma_scan_line_class_step(st, lines[i], skip_vendors);
            lemma_scan_lines_reaches_class(lines, i + 1, st2, skip_vendors);
        } else {
            let j = choose|j: int| i <= j < lines.len() && class_opening_line(#[trigger] lines[j]);
            assert(i + 1 <= j < lines.len() && class_opening_line(lines[j]));
            lemma_scan_lines_reaches_class(lines, i + 1, st2, skip_vendors);
        }
    }
}

proof fn lemma_scan_lines_reaches_vendor(
    lines: Seq<Seq<char>>,
    i: int,
    st: ScanState,
    skip_classes: bool,
)
    requires
        0 <= i,
        scan_lines(lines, i, st, false, skip_classes) is Ok,
        st.vendors.len() > 0 || (!st.stopped && !st.in_class && exists|j: int|
            #[trigger] has_vendor_line_before_class_section(lines, j) && i <= j),
    ensures
        scan_lines(lines, i, st, false, skip_classes)->Ok_0.vendors.len() > 0,
    decreases lines.len() - i,
{
    if i >= lines.len() || st.stopped {
        assert(st.vendors.len() > 0);
    } else {
        let r1 = scan_line(st, lines[i], false, skip_classes);
        let st2 = r1->Ok_0;
        assert(r1 is Ok);
        lemma_scan_line_monotone(st, lines[i], false, skip_classes);
        if st.vendors.len() > 0 {
            lemma_scan_lines_reaches_vendor(lines, i + 1, st2, skip_classes);
        } else {
            let j = choose|j: int|
                #[trigger] has_vendor_line_before_class_section(lines, j) && i <= j;
            assert(!is_class_start(lines[i]));
            lemma_scan_line_vendor_step(st, lines[i], skip_classes);
            if j == i {
                lemma_scan_lines_reaches_vendor(lines, i + 1, st2, skip_classes);
            } else {
                assert(has_vendor_line_before_class_section(lines, j) && i + 1 <= j);
                lemma_scan_lines_reaches_vendor(lines, i + 1, st2, skip_classes);
            }
        }
    }
}

/// In skip-vendors mode no step touches the vendor pipeline.
proof fn lemma_scan_lines_skip_vendors(
    lines: Seq<Seq<char>>,
    i: int,
    st: ScanState,
    skip_classes: bool,
)
    ensures
        scan_lines(lines, i, st, true, skip_classes) matches Ok(st2) ==> st2.vendors == st.vendors
            && st2.devices == st.devices && st2.subdevices == st.subdevices,
    decreases lines.len() - i,
{
    if !(i < 0 || i >= lines.len() || st.stopped) {
        let r = scan_line(st, lines[i], true, skip_classes);
        if r is Ok {
            lemma_scan_lines_skip_vendors(lines, i + 1, r->Ok_0, skip_classes);
        }
    }
}

/// In skip-classes mode the class section is never entered and no step
/// touches the class pipeline.
proof fn lemma_scan_lines_skip_classes(
    lines: Seq<Seq<char>>,
    i: int,
    st: ScanState,
    skip_vendors: bool,
)
    requires
        !st.in_class,
    ensures
        scan_lines(lines, i, st, skip_vendors, true) matches Ok(st2) ==> st2.classes == st.classes
            && st2.subclasses == st.subclasses && st2.interfaces == st.interfaces,
    decreases lines.len() - i,
{
    if !(i < 0 || i >= lines.len() || st.stopped) {
        let r = scan_line(st, lines[i], skip_vendors, true);
        if r is Ok {
            lemma_scan_lines_skip_classes(lines, i + 1, r->Ok_0, skip_vendors);
        }
    }
}

/// Parsing is deterministic: one text, parsed twice with the same flags,
/// yields the same catalog or the same failure, however often it is redone.
pub proof fn lemma_parse_deterministic(
    data1: Seq<char>,
    data2: Seq<char>,
    skip_vendors: bool,
    skip_classes: bool,
)
    requires
        data1 == data2,
    ensures
        parse_result(data1, skip_vendors, skip_classes) == parse_result(
            data2,
            skip_vendors,
            skip_classes,
        ),
{
}

/// Skip-vendors mode yields an empty vendor list, whatever the text.
pub proof fn lemma_skip_vendors_no_vendors(data: Seq<char>, skip_classes: bool)
    requires
        parse_result(data, true, skip_classes) is Ok,
    ensures
        parse_result(data, true, skip_classes)->Ok_0.0 == Seq::<VendorV>::empty(),
{
    let lines = split_lines(data);
    lemma_scan_lines_skip_vendors(lines, 0, init_state(), skip_classes);
}

/// A text with a class-opening line yields at least one class whenever the
/// class section is scanned (with or without skip-vendors).
pub proof fn lemma_class_section_gives_classes(data: Seq<char>, skip_vendors: bool)
    requires
        parse_result(data, skip_vendors, false) is Ok,
        exists|j: int|
            0 <= j < split_lines(data).len() && class_opening_line(
                #[trigger] split_lines(data)[j],
            ),
    ensures
        parse_result(data, skip_vendors, false)->Ok_0.1.len() > 0,
{
    let lines = split_lines(data);
    lemma_scan_lines_reaches_class(lines, 0, init_state(), skip_vendors);
}

/// Skip-classes mode yields an empty class list, whatever the text.
pub proof fn lemma_skip_classes_no_classes(data: Seq<char>, skip_vendors: bool)
    requires
        parse_result(data, skip_vendors, true) is Ok,
    ensures
        parse_result(data, skip_vendors, true)->Ok_0.1 == Seq::<ClassV>::empty(),
{
    let lines = split_lines(data);
    lemma_scan_lines_skip_classes(lines, 0, init_state(), skip_vendors);
}

/// A text with a vendor-opening line ahead of any class start yields at
/// least one vendor whenever the vendor section is scanned.
pub proof fn lemma_vendor_section_gives_vendors(data: Seq<char>, skip_classes: bool)
    requires
        parse_result(data, false, skip_classes) is Ok,
        exists|j: int| #[trigger] has_vendor_line_before_class_section(split_lines(data), j),
    ensures
        parse_result(data, false, skip_classes)->Ok_0.0.len() > 0,
{
    let lines = split_lines(data);
    let j = choose|j: int| #[trigger] has_vendor_line_before_class_section(lines, j);
    assert(has_vendor_line_before_class_section(lines, j) && 0 <= j);
    lemma_scan_lines_reaches_vendor(lines, 0, init_state(), skip_classes);
}

/// End-of-input flush, class side: when the input ends with a class and a
/// subclass still open, the final catalog's last class carries the open
/// subclasses, and its last subclass carries the open interfaces.
pub proof fn lemma_finalize_attaches_class_branch(st: ScanState)
    requires
        st.classes.len() > 0,
        st.subclasses.len() > 0,
    ensures
        finalize(st).1.len() == st.classes.len(),
        finalize(st).1.last().subclasses == attach_interfaces(st.subclasses, st.interfaces),
        finalize(st).1.last().subclasses.last().interfaces == st.interfaces,
{
}

/// End-of-input flush, vendor side: when the input ends with a vendor and a
/// device still open, the final catalog's last vendor carries the open
/// devices, and its last device carries the open subdevices.
pub proof fn lemma_finalize_attaches_vendor_branch(st: ScanState)
    requires
        st.vendors.len() > 0,
        st.devices.len() > 0,
    ensures
        finalize(st).0.len() == st.vendors.len(),
        finalize(st).0.last().devices == attach_subdevices(st.devices, st.subdevices),
        finalize(st).0.last().devices.last().subdevices == st.subdevices,
{
}

/// Scanning a skipped prefix (comments, blank lines) changes nothing.
proof fn lemma_scan_skipped_prefix(
    lines: Seq<Seq<char>>,
    a: int,
    b: int,
    st: ScanState,
    skip_vendors: bool,
    skip_classes: bool,
)
    requires
        0 <= a <= b <= lines.len(),
        forall|t: int| a <= t < b ==> line_skipped(#[trigger] lines[t]),
    ensures
        scan_lines(lines, a, st, skip_vendors, skip_classes) == scan_lines(
            lines,
            b,
            st,
            skip_vendors,
            skip_classes,
        ),
    decreases b - a,
{
    if a < b && !st.stopped {
        assert(line_skipped(lines[a]));
        lemma_scan_skipped_prefix(lines, a + 1, b, st, skip_vendors, skip_classes);
    } else if a < b && st.stopped {
        lemma_scan_skipped_prefix(lines, a + 1, b, st, skip_vendors, skip_classes);
    }
}

/// The first scanned line, if it lacks the two-space separator, fails the
/// parse with the malformed-line condition and its line number.
pub proof fn lemma_missing_separator_fails(
    data: Seq<char>,
    i: int,
    skip_vendors: bool,
    skip_classes: bool,
)
    requires
        0 <= i < split_lines(data).len(),
        forall|t: int| 0 <= t < i ==> line_skipped(#[trigger] split_lines(data)[t]),
        !line_skipped(split_lines(data)[i]),
        first_sep(split_lines(data)[i], 0) is None,
    ensures
        parse_result(data, skip_vendors, skip_classes) == Err::<(Seq<VendorV>, Seq<ClassV>),
            ParseError,
        >(ParseError { kind: ParseErrorKind::MalformedLine, line: (i + 1) as usize }),
{
    let lines = split_lines(data);
    lemma_scan_skipped_prefix(lines, 0, i, init_state(), skip_vendors, skip_classes);
}

/// The first scanned line, if it is a vendor line whose identifier field is
/// not valid sixteen-bit hexadecimal, fails the parse with the
/// invalid-integer condition and its line number.
pub proof fn lemma_invalid_integer_fails(data: Seq<char>, i: int, skip_classes: bool)
    requires
        0 <= i < split_lines(data).len(),
        forall|t: int| 0 <= t < i ==> line_skipped(#[trigger] split_lines(data)[t]),
        vendor_opening_line(split_lines(data)[i]),
        first_sep(split_lines(data)[i], 0) matches Some(j) && !(valid_hex(
            trim(split_lines(data)[i].subrange(0, j)),
        ) && hex_value(trim(split_lines(data)[i].subrange(0, j))) <= 0xffff),
    ensures
        parse_result(data, false, skip_classes) == Err::<(Seq<VendorV>, Seq<ClassV>),
            ParseError,
        >(ParseError { kind: ParseErrorKind::InvalidInteger, line: (i + 1) as usize }),
{
    let lines = split_lines(data);
    lemma_scan_skipped_prefix(lines, 0, i, init_state(), false, skip_classes);
}

} // verus!
