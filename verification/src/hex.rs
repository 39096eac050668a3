//! Decoding of unprefixed hexadecimal identifier fields.
//!
//! Every identifier in the database is written as bare hexadecimal digits,
//! without a sign or an `0x` prefix.  The spec-level meaning of such a field
//! is given by [`hex_value`]; the executable decoders return exactly that
//! value when the field is well formed and fits the requested width, and
//! nothing otherwise.

use vstd::prelude::*;

verus! {

/// True of the sixteen hexadecimal digit characters, in either case.
pub open spec fn is_hex_digit(c: char) -> bool {
    (48 <= c as u32 && c as u32 <= 57)  // '0' ..= '9'
    || (97 <= c as u32 && c as u32 <= 102)  // 'a' ..= 'f'
    || (65 <= c as u32 && c as u32 <= 70)  // 'A' ..= 'F'
}

/// The numeric value of one hexadecimal digit; zero for any other character.
pub open spec fn hex_digit_value(c: char) -> int {
    if 48 <= c as u32 && c as u32 <= 57 {
        c as u32 - 48
    } else if 97 <= c as u32 && c as u32 <= 102 {
        c as u32 - 97 + 10
    } else if 65 <= c as u32 && c as u32 <= 70 {
        c as u32 - 65 + 10
    } else {
        0
    }
}

/// The number denoted by a sequence of hexadecimal digits, most significant
/// digit first.
pub open spec fn hex_value(s: Seq<char>) -> int
    decreases s.len(),
{
    if s.len() == 0 {
        0
    } else {
        16 * hex_value(s.drop_last()) + hex_digit_value(s.last())
    }
}

/// A well-formed identifier field: non-empty and hexadecimal throughout.
pub open spec fn valid_hex(s: Seq<char>) -> bool {
    s.len() > 0 && forall|i: int| 0 <= i < s.len() ==> is_hex_digit(s[i])
}

pub proof fn lemma_hex_value_nonneg(s: Seq<char>)
    ensures
        0 <= hex_value(s),
    decreases s.len(),
{
    if s.len() > 0 {
        lemma_hex_value_nonneg(s.drop_last());
    }
}

/// Reading more digits never decreases the value, so an overflow seen on a
/// prefix is final.
pub proof fn lemma_hex_value_prefix_le(s: Seq<char>, i: int)
    requires
        0 <= i <= s.len(),
    ensures
        hex_value(s.subrange(0, i)) <= hex_value(s),
    decreases s.len(),
{
    if i == s.len() {
        assert(s.subrange(0, i) =~= s);
    } else {
        assert(s.subrange(0, i) =~= s.drop_last().subrange(0, i));
        lemma_hex_value_prefix_le(s.drop_last(), i);
        lemma_hex_value_nonneg(s.drop_last());
    }
}

/// The value of one digit character, or `None` where the character is not a
/// hexadecimal digit.
fn hex_digit_of(c: char) -> (r: Option<u8>)
    ensures
        r matches Some(v) ==> is_hex_digit(c) && v == hex_digit_value(c),
        r is None ==> !is_hex_digit(c),
{
    let u = c as u32;
    if 48 <= u && u <= 57 {
        Some((u - 48) as u8)
    } else if 97 <= u && u <= 102 {
        Some((u - 97 + 10) as u8)
    } else if 65 <= u && u <= 70 {
        Some((u - 65 + 10) as u8)
    } else {
        None
    }
}

/// Decodes a hexadecimal field, refusing values above `limit`.
fn parse_hex(s: &str, limit: u32) -> (r: Option<u32>)
    requires
        limit <= 0xffff,
    ensures
        r == (if valid_hex(s@) && hex_value(s@) <= limit {
            Some(hex_value(s@) as u32)
        } else {
            None::<u32>
        }),
{
    let n = s.unicode_len();
    if n == 0 {
        return None;
    }
    let mut acc: u32 = 0;
    let mut i: usize = 0;
    while i < n
        invariant
            0 < n == s@.len(),
            0 <= i <= n,
            limit <= 0xffff,
            forall|k: int| 0 <= k < i ==> is_hex_digit(s@[k]),
            acc == hex_value(s@.subrange(0, i as int)),
            acc <= limit,
        decreases n - i,
    {
        let c = s.get_char(i);
        match hex_digit_of(c) {
            None => {
                return None;
            },
            Some(d) => {
                let v = acc * 16 + d as u32;
                proof {
                    assert(s@.subrange(0, i + 1).drop_last() =~= s@.subrange(0, i as int));
                    assert(s@.subrange(0, i + 1).last() == s@[i as int]);
                }
                if v > limit {
                    proof {
                        lemma_hex_value_prefix_le(s@, i + 1);
                    }
                    return None;
                }
                acc = v;
                i = i + 1;
            },
        }
    }
    proof {
        assert(s@.subrange(0, n as int) =~= s@);
    }
    Some(acc)
}

/// Decodes a 16-bit identifier field (vendor, device or subdevice ids).
pub fn parse_hex16(s: &str) -> (r: Option<u16>)
    ensures
        r == (if valid_hex(s@) && hex_value(s@) <= 0xffff {
            Some(hex_value(s@) as u16)
        } else {
            None::<u16>
        }),
{
    proof {
        lemma_hex_value_nonneg(s@);
    }
    match parse_hex(s, 0xffff) {
        Some(v) => Some(v as u16),
        None => None,
    }
}

/// Decodes an 8-bit identifier field (class, subclass or interface ids).
pub fn parse_hex8(s: &str) -> (r: Option<u8>)
    ensures
        r == (if valid_hex(s@) && hex_value(s@) <= 0xff {
            Some(hex_value(s@) as u8)
        } else {
            None::<u8>
        }),
{
    proof {
        lemma_hex_value_nonneg(s@);
    }
    match parse_hex(s, 0xff) {
        Some(v) => Some(v as u8),
        None => None,
    }
}

} // verus!
