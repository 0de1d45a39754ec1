//! UTF-16 text, as the Windows interfaces take and give it.

use crate::text::chars_of;
use vstd::prelude::*;

verus! {

/// The standard library's `char::from_u32`: the character with the given
/// scalar value, or nothing for a surrogate or a value past the last character.
pub assume_specification[ char::from_u32 ](i: u32) -> (r: Option<char>)
    ensures
        r == if i <= 0xd7ff || 0xe000 <= i <= 0x10ffff {
            Some(i as char)
        } else {
            None
        },
;

/// The UTF-16 code units of one character.
pub open spec fn units_of(c: char) -> Seq<u16> {
    let v = c as int;
    if v < 0x10000 {
        seq![v as u16]
    } else {
        seq![(0xd800 + (v - 0x10000) / 0x400) as u16, (0xdc00 + (v - 0x10000) % 0x400) as u16]
    }
}

/// The UTF-16 code units of a text.
pub open spec fn utf16(t: Seq<char>) -> Seq<u16>
    decreases t.len(),
{
    if t.len() == 0 {
        Seq::empty()
    } else {
        utf16(t.drop_last()) + units_of(t.last())
    }
}

/// Append the UTF-16 code units of one character.
fn push_units(out: &mut Vec<u16>, c: char)
    ensures
        final(out)@ == old(out)@ + units_of(c),
{
    let v: u32 = c as u32;
    if v < 0x10000 {
        out.push(v as u16);
    } else {
        out.push((0xd800 + (v - 0x10000) / 0x400) as u16);
        out.push((0xdc00 + (v - 0x10000) % 0x400) as u16);
    }
    assert(out@ =~= old(out)@ + units_of(c));
}

/// Encode a text as UTF-16 and end it with a zero unit.
pub fn wide_utf16_z(s: &str) -> (r: Vec<u16>)
    ensures
        r@ == utf16(s@).push(0u16),
{
    let chars = chars_of(s);
    let mut out: Vec<u16> = Vec::new();
    let mut i: usize = 0;
    while i < chars.len()
        invariant
            chars@ == s@,
            0 <= i <= chars@.len(),
            out@ == utf16(chars@.take(i as int)),
        decreases chars.len() - i,
    {
        push_units(&mut out, chars[i]);
        proof {
            let next = chars@.take(i as int + 1);
            assert(next.drop_last() =~= chars@.take(i as int));
        }
        i = i + 1;
    }
    assert(chars@.take(chars@.len() as int) =~= s@);
    out.push(0);
    out
}

/// A leading half of a surrogate pair.
pub open spec fn high_surrogate(u: u16) -> bool {
    0xd800 <= u <= 0xdbff
}

/// A trailing half of a surrogate pair.
pub open spec fn low_surrogate(u: u16) -> bool {
    0xdc00 <= u <= 0xdfff
}

/// The character that a surrogate pair stands for.
pub open spec fn paired(hi: u16, lo: u16) -> char {
    (0x10000 + (hi - 0xd800) * 0x400 + (lo - 0xdc00)) as char
}

/// The text that code units stand for: nothing if a surrogate stands alone.
pub open spec fn from_units(u: Seq<u16>) -> Option<Seq<char>>
    decreases u.len(),
{
    if u.len() == 0 {
        Some(Seq::empty())
    } else if low_surrogate(u[0]) {
        None
    } else if high_surrogate(u[0]) {
        if u.len() < 2 || !low_surrogate(u[1]) {
            None
        } else {
            match from_units(u.skip(2)) {
                Some(t) => Some(seq![paired(u[0], u[1])] + t),
                None => None,
            }
        }
    } else {
        match from_units(u.skip(1)) {
            Some(t) => Some(seq![u[0] as char] + t),
            None => None,
        }
    }
}

/// Decode UTF-16, or nothing if a surrogate stands alone.
pub fn decode_utf16(u: &[u16]) -> (r: Option<String>)
    ensures
        match r {
            Some(s) => from_units(u@) == Some(s@),
            None => from_units(u@) is None,
        },
{
    let mut out = String::new();
    let mut i: usize = 0;
    assert(u@.skip(0) =~= u@);
    while i < u.len()
        invariant
            0 <= i <= u@.len(),
            match from_units(u@.skip(i as int)) {
                Some(t) => from_units(u@) == Some(out@ + t),
                None => from_units(u@) is None,
            },
        decreases u.len() - i,
    {
        let ghost rest = u@.skip(i as int);
        let ghost before = out@;
        let hi: u16 = u[i];
        if 0xdc00 <= hi && hi <= 0xdfff {
            return None;
        }
        if 0xd800 <= hi && hi <= 0xdbff {
            if u.len() - i < 2 {
                return None;
            }
            let lo: u16 = u[i + 1];
            if lo < 0xdc00 || 0xdfff < lo {
                return None;
            }
            let v: u32 = 0x10000 + (hi as u32 - 0xd800) * 0x400 + (lo as u32 - 0xdc00);
            let c: char = scalar(v);
            out.push(c);
            proof {
                assert(rest.skip(2) =~= u@.skip(i + 2));
                if let Some(t) = from_units(u@.skip(i + 2)) {
                    assert(before + (seq![c] + t) =~= out@ + t);
                }
            }
            i = i + 2;
        } else {
            let c: char = scalar(hi as u32);
            out.push(c);
            proof {
                assert(rest.skip(1) =~= u@.skip(i + 1));
                if let Some(t) = from_units(u@.skip(i + 1)) {
                    assert(before + (seq![c] + t) =~= out@ + t);
                }
            }
            i = i + 1;
        }
    }
    assert(out@ + Seq::<char>::empty() =~= out@);
    Some(out)
}

/// The character with a given scalar value.
fn scalar(v: u32) -> (c: char)
    requires
        v <= 0xd7ff || 0xe000 <= v <= 0x10ffff,
    ensures
        c == v as char,
        c as u32 == v,
{
    match char::from_u32(v) {
        Some(c) => c,
        None => '\0',
    }
}

/// Decoding undoes encoding.
pub proof fn utf16_round_trips(t: Seq<char>)
    ensures
        from_units(utf16(t)) == Some(t),
    decreases t.len(),
{
    if t.len() > 0 {
        utf16_round_trips(t.drop_last());
        from_units_appends(utf16(t.drop_last()), t.drop_last(), t.last());
        assert(t.drop_last().push(t.last()) =~= t);
    } else {
        assert(t =~= Seq::<char>::empty());
    }
}

/// Code units followed by those of one more character decode to the text
/// followed by that character.
proof fn from_units_appends(u: Seq<u16>, t: Seq<char>, c: char)
    requires
        from_units(u) == Some(t),
    ensures
        from_units(u + units_of(c)) == Some(t.push(c)),
    decreases u.len(),
{
    let all = u + units_of(c);
    if u.len() == 0 {
        assert(all =~= units_of(c));
        assert(from_units(Seq::<u16>::empty()) == Some(Seq::<char>::empty()));
        assert(t =~= Seq::<char>::empty());
        let v = c as int;
        if v < 0x10000 {
            assert(all.skip(1) =~= Seq::<u16>::empty());
            assert(all[0] == v && !high_surrogate(all[0]) && !low_surrogate(all[0]));
            assert(all[0] as char == c);
            assert(seq![all[0] as char] + Seq::<char>::empty() =~= t.push(c));
        } else {
            assert(all.skip(2) =~= Seq::<u16>::empty());
            assert(high_surrogate(all[0]) && low_surrogate(all[1]));
            assert((v - 0x10000) / 0x400 < 0x400);
            assert(((v - 0x10000) / 0x400) * 0x400 + (v - 0x10000) % 0x400 == v - 0x10000);
            assert(paired(all[0], all[1]) == c);
            assert(seq![paired(all[0], all[1])] + Seq::<char>::empty() =~= t.push(c));
        }
    } else if high_surrogate(u[0]) {
        let rest = from_units(u.skip(2)).unwrap();
        from_units_appends(u.skip(2), rest, c);
        assert(all.skip(2) =~= u.skip(2) + units_of(c));
        assert(seq![paired(u[0], u[1])] + rest.push(c) =~= t.push(c));
    } else {
        let rest = from_units(u.skip(1)).unwrap();
        from_units_appends(u.skip(1), rest, c);
        assert(all.skip(1) =~= u.skip(1) + units_of(c));
        assert(seq![u[0] as char] + rest.push(c) =~= t.push(c));
    }
}

} // verus!
