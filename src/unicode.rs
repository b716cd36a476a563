//! UTF-8 validation and counting of Chinese characters in UTF-8 text.
use vstd::prelude::*;
use vstd::utf8::*;

verus! {

/// True when the scalar value `c` is one of the CJK unified ideographs counted as
/// Chinese: the core block U+4E00..=U+9FA5 and its supplement U+9FA6..=U+9FCB.
pub open spec fn is_chinese_scalar(c: u32) -> bool {
    (0x4E00 <= c <= 0x9FA5) || (0x9FA6 <= c <= 0x9FCB)
}

/// The number of Chinese characters in `cs`.
pub open spec fn chinese_char_count(cs: Seq<char>) -> nat
    decreases cs.len(),
{
    if cs.len() == 0 {
        0
    } else {
        (if is_chinese_scalar(cs[0] as u32) {
            1nat
        } else {
            0nat
        }) + chinese_char_count(cs.drop_first())
    }
}

/// Decodes the scalar that starts at byte `i`: its value and its length in bytes,
/// or `None` when no well-formed UTF-8 scalar starts there.
fn decode_scalar_at(bytes: &[u8], i: usize) -> (r: Option<(u32, usize)>)
    requires
        i <= bytes@.len(),
    ensures
        ({
            let rest = bytes@.skip(i as int);
            match r {
                Some((c, n)) => valid_first_scalar(rest) && c == decode_first_scalar(rest) && n
                    == length_of_first_scalar(rest),
                None => !valid_first_scalar(rest),
            }
        }),
        r matches Some((c, _)) ==> c <= 0x10ffff && !(0xD800 <= c <= 0xDFFF),
{
    let ghost rest = bytes@.skip(i as int);
    let len = bytes.len() - i;
    if len == 0 {
        return None;
    }
    let b0 = bytes[i];
    assert(rest[0] == b0);
    if b0 <= 0x7f {
        let c = (b0 & 0x7f) as u32;
        assert(b0 & 0x7f <= 0x7f) by (bit_vector);
        Some((c, 1))
    } else if 0xc0 <= b0 && b0 <= 0xdf {
        if len < 2 {
            return None;
        }
        let b1 = bytes[i + 1];
        assert(rest[1] == b1);
        if !(0x80 <= b1 && b1 <= 0xbf) {
            return None;
        }
        let c = (((b0 & 0x1f) as u32) << 6) | ((b1 & 0x3f) as u32);
        assert((((b0 & 0x1f) as u32) << 6) | ((b1 & 0x3f) as u32) <= 0x7ff) by (bit_vector);
        if c < 0x80 || (0xD800 <= c && c <= 0xDFFF) {
            None
        } else {
            Some((c, 2))
        }
    } else if 0xe0 <= b0 && b0 <= 0xef {
        if len < 3 {
            return None;
        }
        let b1 = bytes[i + 1];
        let b2 = bytes[i + 2];
        assert(rest[1] == b1 && rest[2] == b2);
        if !(0x80 <= b1 && b1 <= 0xbf && 0x80 <= b2 && b2 <= 0xbf) {
            return None;
        }
        let c = (((b0 & 0x0f) as u32) << 12) | (((b1 & 0x3f) as u32) << 6) | ((b2
            & 0x3f) as u32);
        assert((((b0 & 0x0f) as u32) << 12) | (((b1 & 0x3f) as u32) << 6) | ((b2 & 0x3f) as u32)
            <= 0xffff) by (bit_vector);
        if c < 0x800 || (0xD800 <= c && c <= 0xDFFF) {
            None
        } else {
            Some((c, 3))
        }
    } else if 0xf0 <= b0 && b0 <= 0xf7 {
        if len < 4 {
            return None;
        }
        let b1 = bytes[i + 1];
        let b2 = bytes[i + 2];
        let b3 = bytes[i + 3];
        assert(rest[1] == b1 && rest[2] == b2 && rest[3] == b3);
        if !(0x80 <= b1 && b1 <= 0xbf && 0x80 <= b2 && b2 <= 0xbf && 0x80 <= b3 && b3 <= 0xbf) {
            return None;
        }
        let c = (((b0 & 0x07) as u32) << 18) | (((b1 & 0x3f) as u32) << 12) | (((b2
            & 0x3f) as u32) << 6) | ((b3 & 0x3f) as u32);
        if c < 0x10000 || c > 0x10ffff || (0xD800 <= c && c <= 0xDFFF) {
            None
        } else {
            Some((c, 4))
        }
    } else {
        None
    }
}

/// Standard UTF-8 validation of `bytes`, without transcoding.
pub fn is_valid_utf8(bytes: &[u8]) -> (r: bool)
    ensures
        r == valid_utf8(bytes@),
{
    let mut i: usize = 0;
    assert(bytes@.skip(0) =~= bytes@);
    while i < bytes.len()
        invariant
            i <= bytes.len(),
            valid_utf8(bytes@) == valid_utf8(bytes@.skip(i as int)),
        decreases bytes.len() - i,
    {
        let ghost rest = bytes@.skip(i as int);
        match decode_scalar_at(bytes, i) {
            None => {
                return false;
            },
            Some((_, n)) => {
                assert(pop_first_scalar(rest) =~= bytes@.skip(i + n));
                i = i + n;
            },
        }
    }
    true
}

/// Counts the Chinese characters of `bytes` read as UTF-8, or `None` when
/// `bytes` is not valid UTF-8.
pub fn count_chinese_in_utf8(bytes: &[u8]) -> (r: Option<usize>)
    ensures
        r.is_some() == valid_utf8(bytes@),
        r matches Some(n) ==> n == chinese_char_count(decode_utf8(bytes@)),
{
    let mut i: usize = 0;
    let mut n: usize = 0;
    assert(bytes@.skip(0) =~= bytes@);
    while i < bytes.len()
        invariant
            n <= i <= bytes.len(),
            valid_utf8(bytes@) == valid_utf8(bytes@.skip(i as int)),
            valid_utf8(bytes@) ==> n + chinese_char_count(decode_utf8(bytes@.skip(i as int)))
                == chinese_char_count(decode_utf8(bytes@)),
        decreases bytes.len() - i,
    {
        let ghost rest = bytes@.skip(i as int);
        match decode_scalar_at(bytes, i) {
            None => {
                return None;
            },
            Some((c, k)) => {
                assert(pop_first_scalar(rest) =~= bytes@.skip(i + k));
                proof {
                    if valid_utf8(rest) {
                        let cs = decode_utf8(rest);
                        assert(cs.len() > 0);
                        assert(cs.drop_first() =~= decode_utf8(bytes@.skip(i + k)));
                        assert((c as char) as u32 == c);
                    }
                }
                if (0x4E00 <= c && c <= 0x9FA5) || (0x9FA6 <= c && c <= 0x9FCB) {
                    n = n + 1;
                }
                i = i + k;
            },
        }
    }
    assert(bytes@.skip(i as int).len() == 0);
    Some(n)
}

/// True when `bytes` is valid UTF-8 holding at least one Chinese character.
pub fn contains_chinese_in_utf8(bytes: &[u8]) -> (r: bool)
    ensures
        r == (valid_utf8(bytes@) && chinese_char_count(decode_utf8(bytes@)) > 0),
{
    match count_chinese_in_utf8(bytes) {
        Some(n) => n > 0,
        None => false,
    }
}

} // verus!
