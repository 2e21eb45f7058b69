//! Conversion of text to the platform's wide-character form: UTF-16 code
//! units with a terminating zero unit, as every native call that takes a
//! string expects it.

use vstd::prelude::*;

verus! {

/// The UTF-16 code units of one character: one unit for a scalar below
/// 0x10000, else a surrogate pair.
pub open spec fn wide_units(c: char) -> Seq<u16> {
    let u = c as u32;
    if u < 0x10000 {
        seq![u as u16]
    } else {
        seq![
            ((u - 0x10000) / 0x400 + 0xD800) as u16,
            ((u - 0x10000) % 0x400 + 0xDC00) as u16,
        ]
    }
}

/// The UTF-16 code units of a whole string, in character order, without a
/// terminator.
pub open spec fn wide_of(s: Seq<char>) -> Seq<u16>
    decreases s.len(),
{
    if s.len() == 0 {
        Seq::empty()
    } else {
        wide_units(s[0]) + wide_of(s.drop_first())
    }
}

/// Encoding goes character by character: extending the text by one character
/// appends exactly that character's units.
pub proof fn lemma_wide_of_push(s: Seq<char>, c: char)
    ensures
        wide_of(s.push(c)) == wide_of(s) + wide_units(c),
    decreases s.len(),
{
    if s.len() == 0 {
        assert(s.push(c).drop_first() =~= s);
        assert(s.push(c)[0] == c);
        assert(wide_of(s.push(c)) =~= wide_of(s) + wide_units(c));
    } else {
        assert(s.push(c).drop_first() =~= s.drop_first().push(c));
        lemma_wide_of_push(s.drop_first(), c);
        assert(wide_of(s.push(c)) =~= wide_of(s) + wide_units(c));
    }
}

/// Encodes `s` as null-terminated UTF-16, ready to cross the native
/// boundary.
pub fn to_wide_null(s: &str) -> (r: Vec<u16>)
    ensures
        r@ == wide_of(s@).push(0u16),
{
    let n: usize = s.unicode_len();
    let mut out: Vec<u16> = Vec::new();
    let mut i: usize = 0;
    while i < n
        invariant
            n == s@.len(),
            i <= n,
            out@ == wide_of(s@.take(i as int)),
        decreases n - i,
    {
        let c: char = s.get_char(i);
        let u: u32 = c as u32;
        proof {
            vstd::utf8::char_is_scalar(c);
            assert(s@.take(i + 1) =~= s@.take(i as int).push(s@[i as int]));
            lemma_wide_of_push(s@.take(i as int), c);
        }
        if u < 0x10000 {
            out.push(u as u16);
            assert(out@ =~= wide_of(s@.take(i + 1)));
        } else {
            let rest: u32 = u - 0x10000;
            assert(rest / 0x400 <= 0x3FF) by (nonlinear_arith)
                requires
                    rest <= 0xFFFFF,
            ;
            assert(rest % 0x400 <= 0x3FF) by (nonlinear_arith);
            let high: u32 = rest / 0x400 + 0xD800;
            let low: u32 = rest % 0x400 + 0xDC00;
            out.push(high as u16);
            out.push(low as u16);
            assert(out@ =~= wide_of(s@.take(i + 1)));
        }
        i = i + 1;
    }
    proof {
        assert(s@.take(n as int) =~= s@);
    }
    out.push(0u16);
    out
}

} // verus!
