//! Numeric user and group identifiers, as written in a configuration.

use vstd::prelude::*;
use vstd::string::*;

verus! {

/// Whether `c` is one of `0` to `9`.
pub open spec fn is_digit(c: char) -> bool {
    '0' <= c <= '9'
}

/// Whether `s` holds decimal digits only. The empty text does.
pub open spec fn all_digits(s: Seq<char>) -> bool {
    forall|i: int| 0 <= i < s.len() ==> is_digit(#[trigger] s[i])
}

/// The number that the digit `c` stands for; 0 for any other character.
pub open spec fn digit_value(c: char) -> nat {
    if is_digit(c) {
        (c as u32 - '0' as u32) as nat
    } else {
        0
    }
}

/// The number that the decimal digits of `s` write; 0 for the empty text.
pub open spec fn decimal_value(s: Seq<char>) -> nat
    decreases s.len(),
{
    if s.len() == 0 {
        0
    } else {
        decimal_value(s.drop_last()) * 10 + digit_value(s.last())
    }
}

/// The identifier that `s` asks for: its number where `s` is a non-empty
/// text of decimal digits whose number fits in 32 bits; none for any other
/// text, which asks for no change of ownership.
pub open spec fn numeric_id(s: Seq<char>) -> Option<u32> {
    if all_digits(s) && s.len() > 0 && decimal_value(s) <= u32::MAX {
        Some(decimal_value(s) as u32)
    } else {
        None
    }
}

/// What one pass over an identifier's text finds.
struct Scan {
    digits: bool,
    fits: bool,
    value: u32,
}

fn scan(s: &str) -> (r: Scan)
    ensures
        r.digits == all_digits(s@),
        r.digits ==> r.fits == (decimal_value(s@) <= u32::MAX),
        r.digits && r.fits ==> r.value == decimal_value(s@),
{
    if !s.is_ascii() {
        proof {
            let i = choose|i: int| 0 <= i < s@.len() && !('\0' <= #[trigger] s@[i] <= '\u{7f}');
            assert(!is_digit(s@[i]));
        }
        return Scan { digits: false, fits: false, value: 0 };
    }
    let bytes = s.as_bytes();
    proof {
        is_ascii_spec_bytes(s);
    }
    let n: usize = bytes.len();
    let mut acc: u64 = 0;
    let mut fits: bool = true;
    let mut i: usize = 0;
    while i < n
        invariant
            i <= n,
            n == s@.len(),
            bytes@.len() == n,
            vstd::utf8::is_ascii_chars(s@),
            forall|j: int| 0 <= j < n ==> #[trigger] bytes@[j] == s@[j] as u8,
            all_digits(s@.take(i as int)),
            fits ==> acc == decimal_value(s@.take(i as int)) && acc <= u32::MAX,
            !fits ==> decimal_value(s@.take(i as int)) > u32::MAX,
        decreases n - i,
    {
        let b: u8 = bytes[i];
        if b < 48 || b > 57 {
            proof {
                assert('\0' <= s@[i as int] <= '\u{7f}');
                assert(bytes@[i as int] == s@[i as int] as u8);
                assert(!is_digit(s@[i as int]));
            }
            return Scan { digits: false, fits: false, value: 0 };
        }
        proof {
            let next = s@.take(i as int + 1);
            assert(next.drop_last() =~= s@.take(i as int));
            assert(next.last() == s@[i as int]);
            assert('\0' <= s@[i as int] <= '\u{7f}');
            assert(bytes@[i as int] == s@[i as int] as u8);
            assert(is_digit(s@[i as int]));
            assert forall|j: int| 0 <= j < next.len() implies is_digit(#[trigger] next[j]) by {
                if j < i {
                    assert(s@.take(i as int)[j] == next[j]);
                }
            }
        }
        if fits {
            acc = acc * 10 + (b - 48) as u64;
            if acc > 0xffff_ffff {
                fits = false;
            }
        }
        i += 1;
    }
    proof {
        assert(s@.take(n as int) =~= s@);
    }
    Scan { digits: true, fits, value: if fits { acc as u32 } else { 0 } }
}

/// Reads an owner or a group from its configured text: a purely numeric
/// text gives its number; a symbolic name, the empty text and a number
/// beyond 32 bits give none.
pub fn parse_id(s: &str) -> (r: Option<u32>)
    ensures
        r == numeric_id(s@),
{
    let found = scan(s);
    if found.digits && found.fits && s.unicode_len() > 0 {
        Some(found.value)
    } else {
        None
    }
}

} // verus!
