//! Numeric literals: decimal, or hexadecimal after a `0x` prefix.

use vstd::prelude::*;
use vstd::string::StrSliceExecFns;

verus! {

/// The value of a digit in the given radix (10 or 16), if it is one.
pub open spec fn digit_value(c: char, radix: nat) -> Option<nat> {
    if '0' <= c <= '9' {
        Some((c as nat - '0' as nat) as nat)
    } else if radix == 16 && 'a' <= c <= 'f' {
        Some((c as nat - 'a' as nat + 10) as nat)
    } else if radix == 16 && 'A' <= c <= 'F' {
        Some((c as nat - 'A' as nat + 10) as nat)
    } else {
        None
    }
}

/// The number a run of digits denotes, most significant first.
pub open spec fn digits_value(s: Seq<char>, radix: nat) -> Option<nat>
    decreases s.len(),
{
    if s.len() == 0 {
        Some(0)
    } else {
        match (digits_value(s.drop_last(), radix), digit_value(s.last(), radix)) {
            (Some(v), Some(d)) => Some(v * radix + d),
            _ => None,
        }
    }
}

pub open spec fn has_hex_prefix(s: Seq<char>) -> bool {
    s.len() >= 2 && s[0] == '0' && s[1] == 'x'
}

/// The unsigned number a literal denotes: `0x` and at least one hex digit,
/// or at least one decimal digit.
pub open spec fn magnitude(s: Seq<char>) -> Option<nat> {
    if has_hex_prefix(s) {
        if s.len() > 2 {
            digits_value(s.skip(2), 16)
        } else {
            None
        }
    } else if s.len() > 0 {
        digits_value(s, 10)
    } else {
        None
    }
}

/// The `u32` a literal denotes, if it is well formed and in range.
pub open spec fn u32_literal(s: Seq<char>) -> Option<u32> {
    match magnitude(s) {
        Some(v) => if v <= u32::MAX {
            Some(v as u32)
        } else {
            None
        },
        None => None,
    }
}

/// The `i32` a literal denotes, if it is well formed and in range; a leading
/// `-` negates it.
pub open spec fn i32_literal(s: Seq<char>) -> Option<i32> {
    if s.len() > 0 && s[0] == '-' {
        match magnitude(s.skip(1)) {
            Some(v) => if v <= 0x8000_0000 {
                Some((-v) as i32)
            } else {
                None
            },
            None => None,
        }
    } else {
        match magnitude(s) {
            Some(v) => if v <= i32::MAX {
                Some(v as i32)
            } else {
                None
            },
            None => None,
        }
    }
}

proof fn lemma_digits_grow(s: Seq<char>, radix: nat, i: int)
    requires
        0 <= i <= s.len(),
        radix >= 1,
        digits_value(s, radix) is Some,
    ensures
        digits_value(s.take(i), radix) is Some,
        digits_value(s.take(i), radix)->0 <= digits_value(s, radix)->0,
    decreases s.len(),
{
    if i < s.len() {
        let rest = s.drop_last();
        assert(rest.take(i) =~= s.take(i));
        lemma_digits_grow(rest, radix, i);
        let v = digits_value(rest, radix)->0;
        assert(v <= v * radix) by (nonlinear_arith)
            requires
                radix >= 1,
        ;
    } else {
        assert(s.take(i) =~= s);
    }
}

fn digit_of(c: char, radix: u64) -> (r: Option<u64>)
    requires
        radix == 10 || radix == 16,
    ensures
        r matches Some(d) ==> digit_value(c, radix as nat) == Some(d as nat) && d < radix,
        r is None ==> digit_value(c, radix as nat) is None,
{
    if '0' <= c && c <= '9' {
        Some((c as u64) - ('0' as u64))
    } else if radix == 16 && 'a' <= c && c <= 'f' {
        Some((c as u64) - ('a' as u64) + 10)
    } else if radix == 16 && 'A' <= c && c <= 'F' {
        Some((c as u64) - ('A' as u64) + 10)
    } else {
        None
    }
}

/// The value of the digits of `text` from `start` on, if they are all digits
/// and the value is at most `limit`.
fn digits_at_most(text: &str, start: usize, radix: u64, limit: u64) -> (r: Option<u64>)
    requires
        radix == 10 || radix == 16,
        start <= text@.len(),
        limit <= u32::MAX + 1,
    ensures
        r matches Some(v) ==> digits_value(text@.skip(start as int), radix as nat) == Some(
            v as nat,
        ) && v <= limit,
        r is None ==> match digits_value(text@.skip(start as int), radix as nat) {
            Some(v) => v > limit,
            None => true,
        },
{
    let len = text.unicode_len();
    let ghost s = text@.skip(start as int);
    let mut value: u64 = 0;
    let mut i: usize = start;
    while i < len
        invariant
            start <= i <= len,
            len == text@.len(),
            s == text@.skip(start as int),
            radix == 10 || radix == 16,
            limit <= u32::MAX + 1,
            value <= limit,
            digits_value(s.take(i - start), radix as nat) == Some(value as nat),
        decreases len - i,
    {
        let c = text.get_char(i);
        let ghost prefix = s.take(i - start);
        let ghost next = s.take(i - start + 1);
        assert(next.drop_last() =~= prefix);
        assert(next.last() == c);
        match digit_of(c, radix) {
            None => {
                proof {
                    assert(digits_value(next, radix as nat) is None);
                    if digits_value(s, radix as nat) is Some {
                        lemma_digits_grow(s, radix as nat, i - start + 1);
                    }
                }
                return None;
            },
            Some(d) => {
                assert(value * radix + d <= (u32::MAX + 1) * 16 + 16) by (nonlinear_arith)
                    requires
                        value <= u32::MAX + 1,
                        radix <= 16,
                        d < 16,
                ;
                let updated = value * radix + d;
                if updated > limit {
                    proof {
                        if digits_value(s, radix as nat) is Some {
                            lemma_digits_grow(s, radix as nat, i - start + 1);
                        }
                    }
                    return None;
                }
                value = updated;
            },
        }
        i = i + 1;
    }
    assert(s.take(i - start) =~= s);
    Some(value)
}

/// The magnitude of `text` from `start` on, if it is at most `limit`.
fn magnitude_at_most(text: &str, start: usize, limit: u64) -> (r: Option<u64>)
    requires
        start <= text@.len(),
        limit <= u32::MAX + 1,
    ensures
        r matches Some(v) ==> magnitude(text@.skip(start as int)) == Some(v as nat) && v <= limit,
        r is None ==> match magnitude(text@.skip(start as int)) {
            Some(v) => v > limit,
            None => true,
        },
{
    let len = text.unicode_len();
    let ghost s = text@.skip(start as int);
    if len - start >= 2 && text.get_char(start) == '0' && text.get_char(start + 1) == 'x' {
        assert(has_hex_prefix(s));
        if len - start == 2 {
            return None;
        }
        assert(s.skip(2) =~= text@.skip(start + 2));
        digits_at_most(text, start + 2, 16, limit)
    } else {
        assert(!has_hex_prefix(s));
        if len == start {
            return None;
        }
        digits_at_most(text, start, 10, limit)
    }
}

/// Reads an unsigned 32-bit literal.
pub fn parse_u32(text: &str) -> (r: Option<u32>)
    ensures
        r == u32_literal(text@),
{
    assert(text@.skip(0) =~= text@);
    match magnitude_at_most(text, 0, 0xFFFF_FFFF) {
        Some(v) => Some(v as u32),
        None => None,
    }
}

/// Reads a signed 32-bit literal, with an optional leading `-`.
pub fn parse_i32(text: &str) -> (r: Option<i32>)
    ensures
        r == i32_literal(text@),
{
    let len = text.unicode_len();
    if len > 0 && text.get_char(0) == '-' {
        match magnitude_at_most(text, 1, 0x8000_0000) {
            Some(v) => {
                let negated: i64 = -(v as i64);
                Some(negated as i32)
            },
            None => None,
        }
    } else {
        assert(text@.skip(0) =~= text@);
        match magnitude_at_most(text, 0, 0x7FFF_FFFF) {
            Some(v) => Some(v as i32),
            None => None,
        }
    }
}

} // verus!
