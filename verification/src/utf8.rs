//! UTF-8 validity of a byte sequence, as a specification and as an
//! executable check. The write system call traps on buffers that fail this
//! check before anything reaches the host.
use vstd::prelude::*;

verus! {

/// A continuation byte: high bits `10`.
pub open spec fn is_continuation(b: u8) -> bool {
    0x80 <= b < 0xC0
}

/// Validity of a byte sequence as UTF-8: a sequence of 1- to 4-byte encoded
/// scalar values, overlong forms and surrogate code points excluded.
pub open spec fn is_utf8(s: Seq<u8>) -> bool
    decreases s.len(),
{
    if s.len() == 0 {
        true
    } else {
        let b0 = s[0];
        if b0 < 0x80 {
            is_utf8(s.skip(1))
        } else if 0xC2 <= b0 < 0xE0 {
            s.len() >= 2 && is_continuation(s[1]) && is_utf8(s.skip(2))
        } else if b0 == 0xE0 {
            s.len() >= 3 && 0xA0 <= s[1] < 0xC0 && is_continuation(s[2]) && is_utf8(s.skip(3))
        } else if 0xE1 <= b0 < 0xED {
            s.len() >= 3 && is_continuation(s[1]) && is_continuation(s[2]) && is_utf8(s.skip(3))
        } else if b0 == 0xED {
            s.len() >= 3 && 0x80 <= s[1] < 0xA0 && is_continuation(s[2]) && is_utf8(s.skip(3))
        } else if 0xEE <= b0 < 0xF0 {
            s.len() >= 3 && is_continuation(s[1]) && is_continuation(s[2]) && is_utf8(s.skip(3))
        } else if b0 == 0xF0 {
            s.len() >= 4 && 0x90 <= s[1] < 0xC0 && is_continuation(s[2]) && is_continuation(s[3])
                && is_utf8(s.skip(4))
        } else if 0xF1 <= b0 < 0xF4 {
            s.len() >= 4 && is_continuation(s[1]) && is_continuation(s[2]) && is_continuation(s[3])
                && is_utf8(s.skip(4))
        } else if b0 == 0xF4 {
            s.len() >= 4 && 0x80 <= s[1] < 0x90 && is_continuation(s[2]) && is_continuation(s[3])
                && is_utf8(s.skip(4))
        } else {
            false
        }
    }
}

/// Whether `bytes` is valid UTF-8.
pub fn utf8_check(bytes: &Vec<u8>) -> (r: bool)
    ensures
        r == is_utf8(bytes@),
{
    let n = bytes.len();
    let mut i: usize = 0;
    proof {
        assert(bytes@.skip(0) =~= bytes@);
    }
    while i < n
        invariant
            i <= n,
            n == bytes@.len(),
            is_utf8(bytes@) == is_utf8(bytes@.skip(i as int)),
        decreases n - i,
    {
        proof {
            let su = bytes@.skip(i as int);
            assert(su.len() == n - i);
            assert(su[0] == bytes@[i as int]);
            assert(su.len() > 1 ==> su[1] == bytes@[i + 1]);
            assert(su.len() > 2 ==> su[2] == bytes@[i + 2]);
            assert(su.len() > 3 ==> su[3] == bytes@[i + 3]);
        }
        let remaining = n - i;
        let b0 = bytes[i];
        let width: usize = if b0 < 0x80 {
            1
        } else if 0xC2 <= b0 && b0 < 0xE0 {
            if remaining < 2 || !cont(bytes[i + 1]) {
                return false;
            }
            2
        } else if 0xE0 <= b0 && b0 < 0xF0 {
            if remaining < 3 {
                return false;
            }
            let b1 = bytes[i + 1];
            let lo: u8 = if b0 == 0xE0 {
                0xA0
            } else {
                0x80
            };
            let hi: u8 = if b0 == 0xED {
                0xA0
            } else {
                0xC0
            };
            if !(lo <= b1 && b1 < hi) || !cont(bytes[i + 2]) {
                return false;
            }
            3
        } else if 0xF0 <= b0 && b0 < 0xF5 {
            if remaining < 4 {
                return false;
            }
            let b1 = bytes[i + 1];
            let lo: u8 = if b0 == 0xF0 {
                0x90
            } else {
                0x80
            };
            let hi: u8 = if b0 == 0xF4 {
                0x90
            } else {
                0xC0
            };
            if !(lo <= b1 && b1 < hi) || !cont(bytes[i + 2]) || !cont(bytes[i + 3]) {
                return false;
            }
            4
        } else {
            return false;
        };
        proof {
            assert(bytes@.skip(i as int).skip(width as int) =~= bytes@.skip(i + width));
        }
        i = i + width;
    }
    proof {
        assert(bytes@.skip(n as int) =~= Seq::<u8>::empty());
    }
    true
}

/// Whether `b` is a continuation byte.
fn cont(b: u8) -> (r: bool)
    ensures
        r == is_continuation(b),
{
    0x80 <= b && b < 0xC0
}

} // verus!
