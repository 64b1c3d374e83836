//! UTF-8 well-formedness of a byte sequence. A normal path segment whose
//! name is not valid UTF-8 cannot be shown as text, and the filter treats
//! it as hidden; the checker here decides that condition.

use vstd::prelude::*;

verus! {

/// A continuation byte of a multi-byte encoding: `0x80..=0xBF`.
pub open spec fn utf8_cont(b: u8) -> bool {
    0x80 <= b && b <= 0xBF
}

/// Well-formed UTF-8, by the shortest-form encoding table: one byte for
/// `U+0000..=U+007F`, two for `U+0080..=U+07FF`, three for
/// `U+0800..=U+FFFF` less the surrogates `U+D800..=U+DFFF`, four for
/// `U+10000..=U+10FFFF`. The ranges of the first and second byte rule out
/// overlong forms, surrogates and code points past `U+10FFFF`.
pub open spec fn valid_utf8(s: Seq<u8>) -> bool
    decreases s.len(),
{
    if s.len() == 0 {
        true
    } else {
        let b0 = s[0];
        if b0 <= 0x7F {
            valid_utf8(s.skip(1))
        } else if 0xC2 <= b0 && b0 <= 0xDF {
            s.len() >= 2 && utf8_cont(s[1]) && valid_utf8(s.skip(2))
        } else if b0 == 0xE0 {
            s.len() >= 3 && 0xA0 <= s[1] && s[1] <= 0xBF && utf8_cont(s[2]) && valid_utf8(s.skip(3))
        } else if 0xE1 <= b0 && b0 <= 0xEC {
            s.len() >= 3 && utf8_cont(s[1]) && utf8_cont(s[2]) && valid_utf8(s.skip(3))
        } else if b0 == 0xED {
            s.len() >= 3 && 0x80 <= s[1] && s[1] <= 0x9F && utf8_cont(s[2]) && valid_utf8(s.skip(3))
        } else if 0xEE <= b0 && b0 <= 0xEF {
            s.len() >= 3 && utf8_cont(s[1]) && utf8_cont(s[2]) && valid_utf8(s.skip(3))
        } else if b0 == 0xF0 {
            s.len() >= 4 && 0x90 <= s[1] && s[1] <= 0xBF && utf8_cont(s[2]) && utf8_cont(s[3])
                && valid_utf8(s.skip(4))
        } else if 0xF1 <= b0 && b0 <= 0xF3 {
            s.len() >= 4 && utf8_cont(s[1]) && utf8_cont(s[2]) && utf8_cont(s[3])
                && valid_utf8(s.skip(4))
        } else if b0 == 0xF4 {
            s.len() >= 4 && 0x80 <= s[1] && s[1] <= 0x8F && utf8_cont(s[2]) && utf8_cont(s[3])
                && valid_utf8(s.skip(4))
        } else {
            false
        }
    }
}

/// Decides `valid_utf8` by scanning one encoded character at a time.
pub fn is_valid_utf8(bytes: &Vec<u8>) -> (b: bool)
    ensures
        b == valid_utf8(bytes@),
{
    let n = bytes.len();
    let mut i: usize = 0;
    proof {
        assert(bytes@.skip(0) =~= bytes@);
    }
    while i < n
        invariant
            i <= n,
            n == bytes@.len(),
            valid_utf8(bytes@) == valid_utf8(bytes@.skip(i as int)),
        decreases n - i,
    {
        let b0 = bytes[i];
        let step: usize;
        if b0 <= 0x7F {
            step = 1;
        } else if 0xC2 <= b0 && b0 <= 0xDF {
            if n - i < 2 || !cont_byte(bytes[i + 1]) {
                return false;
            }
            step = 2;
        } else if b0 == 0xE0 {
            if n - i < 3 || !(0xA0 <= bytes[i + 1] && bytes[i + 1] <= 0xBF)
                || !cont_byte(bytes[i + 2]) {
                return false;
            }
            step = 3;
        } else if (0xE1 <= b0 && b0 <= 0xEC) || b0 == 0xEE || b0 == 0xEF {
            if n - i < 3 || !cont_byte(bytes[i + 1]) || !cont_byte(bytes[i + 2]) {
                return false;
            }
            step = 3;
        } else if b0 == 0xED {
            if n - i < 3 || !(0x80 <= bytes[i + 1] && bytes[i + 1] <= 0x9F)
                || !cont_byte(bytes[i + 2]) {
                return false;
            }
            step = 3;
        } else if b0 == 0xF0 {
            if n - i < 4 || !(0x90 <= bytes[i + 1] && bytes[i + 1] <= 0xBF)
                || !cont_byte(bytes[i + 2]) || !cont_byte(bytes[i + 3]) {
                return false;
            }
            step = 4;
        } else if 0xF1 <= b0 && b0 <= 0xF3 {
            if n - i < 4 || !cont_byte(bytes[i + 1]) || !cont_byte(bytes[i + 2])
                || !cont_byte(bytes[i + 3]) {
                return false;
            }
            step = 4;
        } else if b0 == 0xF4 {
            if n - i < 4 || !(0x80 <= bytes[i + 1] && bytes[i + 1] <= 0x8F)
                || !cont_byte(bytes[i + 2]) || !cont_byte(bytes[i + 3]) {
                return false;
            }
            step = 4;
        } else {
            return false;
        }
        proof {
            assert(bytes@.skip(i as int).skip(step as int) =~= bytes@.skip(i as int + step as int));
        }
        i = i + step;
    }
    proof {
        assert(bytes@.skip(n as int) =~= Seq::<u8>::empty());
    }
    true
}

/// Decides `utf8_cont`.
fn cont_byte(b: u8) -> (r: bool)
    ensures
        r == utf8_cont(b),
{
    0x80 <= b && b <= 0xBF
}

} // verus!
