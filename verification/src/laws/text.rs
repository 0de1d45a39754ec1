//! Numbers, lists, padding, white space, splitting and UTF-16.

use crate::text::{
    cut_at_first, decimal_text, joined, lines_of, occurs, padded, repeated, stands_at, trimmed,
    trimmed_end, trimmed_start, white,
};
use crate::wide::{
    from_units, high_surrogate, low_surrogate, paired, units_of, utf16, utf16_round_trips,
};
use vstd::prelude::*;

verus! {

/// A number is written in decimal digits alone, without a leading zero.
pub proof fn numbers_are_plain_digits(n: nat)
    ensures
        decimal_text(n).len() > 0,
        forall|i: int|
            0 <= i < decimal_text(n).len() ==> '0' <= #[trigger] decimal_text(n)[i] <= '9',
        n > 0 ==> decimal_text(n)[0] != '0',
        n < 10 ==> decimal_text(n).len() == 1,
        n >= 10 ==> decimal_text(n).len() == decimal_text(n / 10).len() + 1,
    decreases n,
{
    if n >= 10 {
        numbers_are_plain_digits(n / 10);
    }
}

/// A list is joined part by part: each further part comes after one separator.
pub proof fn joining_adds_part_by_part(parts: Seq<Seq<char>>, part: Seq<char>, sep: Seq<char>)
    ensures
        joined(Seq::<Seq<char>>::empty(), sep) == Seq::<char>::empty(),
        parts.len() == 0 ==> joined(parts.push(part), sep) == part,
        parts.len() > 0 ==> joined(parts.push(part), sep) == joined(parts, sep) + sep + part,
{
    assert(parts.push(part).drop_last() =~= parts);
}

/// Every part of a joined list occurs in it.
pub proof fn every_joined_part_occurs(parts: Seq<Seq<char>>, sep: Seq<char>, i: int)
    requires
        0 <= i < parts.len(),
    ensures
        occurs(joined(parts, sep), parts[i]),
    decreases parts.len(),
{
    let all = joined(parts, sep);
    if parts.len() == 1 {
        assert(all.subrange(0, parts[0].len() as int) =~= parts[0]);
        assert(stands_at(all, parts[0], 0));
    } else {
        let init = joined(parts.drop_last(), sep);
        if i == parts.len() - 1 {
            let at = (init + sep).len() as int;
            assert(all.subrange(at, at + parts[i].len()) =~= parts[i]);
            assert(stands_at(all, parts[i], at));
        } else {
            every_joined_part_occurs(parts.drop_last(), sep, i);
            let at = choose|k: int| stands_at(init, parts.drop_last()[i], k);
            assert(all.subrange(at, at + parts[i].len()) =~= init.subrange(at, at + parts[i].len()));
            assert(stands_at(all, parts[i], at));
        }
    }
}

/// A text occurs in another one exactly if that one is made of it and of something
/// before and after it.
pub proof fn to_occur_is_to_be_a_part(
    before: Seq<char>,
    needle: Seq<char>,
    after: Seq<char>,
    hay: Seq<char>,
)
    ensures
        occurs(before + needle + after, needle),
        occurs(hay, needle) ==> exists|a: Seq<char>, b: Seq<char>|
            hay == #[trigger] (a + needle + b),
{
    let all = before + needle + after;
    let at = before.len() as int;
    assert(all.subrange(at, at + needle.len()) =~= needle);
    assert(stands_at(all, needle, at));
    if occurs(hay, needle) {
        let i = choose|i: int| stands_at(hay, needle, i);
        let a = hay.subrange(0, i);
        let b = hay.subrange(i + needle.len(), hay.len() as int);
        assert(hay =~= a + needle + b) by {
            assert forall|k: int| 0 <= k < hay.len() implies hay[k] == (a + needle + b)[k] by {
                if i <= k < i + needle.len() {
                    assert(hay.subrange(i, i + needle.len())[k - i] == hay[k]);
                }
            }
        }
    }
}

/// Padding adds spaces on the right, up to the width and no further, and takes
/// nothing away.
pub proof fn padding_only_adds_spaces(t: Seq<char>, width: nat)
    ensures
        padded(t, width).len() == if t.len() < width {
            width
        } else {
            t.len()
        },
        padded(t, width).take(t.len() as int) == t,
        forall|i: int| t.len() <= i < padded(t, width).len() ==> padded(t, width)[i] == ' ',
{
    assert(padded(t, width).take(t.len() as int) =~= t);
}

/// A repeated character is there as often as asked for, and nothing else is.
pub proof fn repeating_repeats(c: char, n: nat)
    ensures
        repeated(c, n).len() == n,
        forall|i: int| 0 <= i < n ==> repeated(c, n)[i] == c,
{
}

/// White space is what Unicode calls so: the tab, the four line ends after it,
/// the space, and eighteen more characters.
pub proof fn white_space_is_that_of_unicode(c: char)
    ensures
        white(c) <==> {
            ||| c == '\t' || c == '\n' || c == '\u{b}' || c == '\u{c}' || c == '\r' || c == ' '
            ||| c == '\u{85}' || c == '\u{a0}' || c == '\u{1680}'
            ||| '\u{2000}' <= c <= '\u{200a}'
            ||| c == '\u{2028}' || c == '\u{2029}' || c == '\u{202f}' || c == '\u{205f}'
            ||| c == '\u{3000}'
        },
{
}

/// Trimming takes white space off the ends and nothing else: what is left is a
/// part of the text with nothing but white space around it, and has none at its
/// own ends.
pub proof fn trimming_takes_white_space_off_the_ends(t: Seq<char>)
    ensures
        exists|from: int, to: int|
            #![trigger t.subrange(from, to)]
            {
                &&& 0 <= from <= to <= t.len()
                &&& trimmed(t) == t.subrange(from, to)
                &&& forall|i: int| 0 <= i < from ==> white(#[trigger] t[i])
                &&& forall|i: int| to <= i < t.len() ==> white(#[trigger] t[i])
            },
        trimmed(t).len() > 0 ==> !white(trimmed(t)[0]) && !white(trimmed(t).last()),
{
    let to = end_of_trimmed(t);
    let kept = trimmed_end(t);
    let from = start_of_trimmed(kept);
    assert(trimmed(t) =~= t.subrange(from, to));
    assert forall|i: int| 0 <= i < from implies white(#[trigger] t[i]) by {
        assert(kept[i] == t[i]);
    }
}

/// Where the end that trimming keeps is.
proof fn end_of_trimmed(t: Seq<char>) -> (to: int)
    ensures
        0 <= to <= t.len(),
        trimmed_end(t) == t.subrange(0, to),
        forall|i: int| to <= i < t.len() ==> white(#[trigger] t[i]),
        to > 0 ==> !white(t[to - 1]),
    decreases t.len(),
{
    if t.len() > 0 && white(t.last()) {
        let to = end_of_trimmed(t.drop_last());
        assert(t.drop_last().subrange(0, to) =~= t.subrange(0, to));
        assert forall|i: int| to <= i < t.len() implies white(#[trigger] t[i]) by {
            if i < t.len() - 1 {
                assert(t.drop_last()[i] == t[i]);
            }
        }
        to
    } else {
        assert(t.subrange(0, t.len() as int) =~= t);
        t.len() as int
    }
}

/// Where the start that trimming keeps is.
proof fn start_of_trimmed(t: Seq<char>) -> (from: int)
    ensures
        0 <= from <= t.len(),
        trimmed_start(t) == t.subrange(from, t.len() as int),
        forall|i: int| 0 <= i < from ==> white(#[trigger] t[i]),
        from < t.len() ==> !white(t[from]),
    decreases t.len(),
{
    if t.len() > 0 && white(t[0]) {
        let rest = t.drop_first();
        let from = start_of_trimmed(rest);
        assert(rest.subrange(from, rest.len() as int) =~= t.subrange(from + 1, t.len() as int));
        assert forall|i: int| 0 <= i < from + 1 implies white(#[trigger] t[i]) by {
            if i > 0 {
                assert(rest[i - 1] == t[i]);
            }
        }
        from + 1
    } else {
        assert(t.subrange(0, t.len() as int) =~= t);
        0
    }
}

/// White space around a text is trimmed away, and no more than that: what is left is
/// the text, if it has none at its own ends. White space alone leaves nothing.
pub proof fn surrounding_white_space_is_trimmed(
    before: Seq<char>,
    t: Seq<char>,
    after: Seq<char>,
)
    requires
        forall|i: int| 0 <= i < before.len() ==> white(#[trigger] before[i]),
        forall|i: int| 0 <= i < after.len() ==> white(#[trigger] after[i]),
        t.len() > 0 ==> !white(t[0]) && !white(t.last()),
    ensures
        trimmed(before + t + after) == t,
{
    if t.len() == 0 {
        let all = before + t + after;
        assert forall|i: int| 0 <= i < all.len() implies white(#[trigger] all[i]) by {
            if i < before.len() {
                assert(all[i] == before[i]);
            } else {
                assert(all[i] == after[i - before.len()]);
            }
        }
        white_text_is_trimmed_to_nothing(all);
        assert(trimmed(all) =~= t);
    } else {
        trimming_the_end(before + t, after);
        trimming_the_start(before, t);
    }
}

proof fn white_text_is_trimmed_to_nothing(t: Seq<char>)
    requires
        forall|i: int| 0 <= i < t.len() ==> white(#[trigger] t[i]),
    ensures
        trimmed(t).len() == 0,
{
    let to = end_of_trimmed(t);
    if to > 0 {
        assert(white(t[to - 1]));
    }
}

proof fn trimming_the_end(t: Seq<char>, after: Seq<char>)
    requires
        t.len() > 0,
        !white(t.last()),
        forall|i: int| 0 <= i < after.len() ==> white(#[trigger] after[i]),
    ensures
        trimmed_end(t + after) == t,
    decreases after.len(),
{
    let all = t + after;
    if after.len() == 0 {
        assert(all =~= t);
    } else {
        assert(all.last() == after[after.len() - 1]);
        assert(all.drop_last() =~= t + after.drop_last());
        trimming_the_end(t, after.drop_last());
    }
}

proof fn trimming_the_start(before: Seq<char>, t: Seq<char>)
    requires
        t.len() > 0,
        !white(t[0]),
        forall|i: int| 0 <= i < before.len() ==> white(#[trigger] before[i]),
    ensures
        trimmed_start(before + t) == t,
    decreases before.len(),
{
    let all = before + t;
    if before.len() == 0 {
        assert(all =~= t);
    } else {
        assert(all[0] == before[0]);
        assert(all.drop_first() =~= before.drop_first() + t);
        trimming_the_start(before.drop_first(), t);
    }
}

/// A text is cut at the first occurrence of a character: what comes before does
/// not hold it, and the two parts with it between them are the text. A text that
/// does not hold it is not cut.
pub proof fn cutting_cuts_at_the_first(t: Seq<char>, c: char)
    ensures
        match cut_at_first(t, c) {
            Some((head, tail)) => t == head.push(c) + tail && !head.contains(c),
            None => !t.contains(c),
        },
    decreases t.len(),
{
    if t.len() > 0 {
        if t[0] == c {
            assert(t =~= Seq::<char>::empty().push(c) + t.drop_first());
        } else {
            cutting_cuts_at_the_first(t.drop_first(), c);
            match cut_at_first(t.drop_first(), c) {
                Some((head, tail)) => {
                    let whole = seq![t[0]] + head;
                    assert(t =~= whole.push(c) + tail) by {
                        assert(t =~= seq![t[0]] + t.drop_first());
                    }
                    assert(!whole.contains(c)) by {
                        if whole.contains(c) {
                            let i = choose|i: int| 0 <= i < whole.len() && whole[i] == c;
                            assert(head[i - 1] == c);
                        }
                    }
                },
                None => {
                    if t.contains(c) {
                        let i = choose|i: int| 0 <= i < t.len() && t[i] == c;
                        assert(t.drop_first()[i - 1] == c);
                    }
                },
            }
        }
    }
}

/// A text is split at its line feeds and nowhere else: no line holds one, and
/// the lines joined by line feeds are the text.
pub proof fn splitting_splits_at_line_feeds(t: Seq<char>)
    ensures
        lines_of(t).len() > 0,
        forall|i: int|
            0 <= i < lines_of(t).len() ==> !(#[trigger] lines_of(t)[i]).contains('\n'),
        joined(lines_of(t), seq!['\n']) == t,
    decreases t.len(),
{
    let sep = seq!['\n'];
    if t.len() == 0 {
        assert(joined(lines_of(t), sep) =~= t);
    } else {
        let init = t.drop_last();
        let before = lines_of(init);
        splitting_splits_at_line_feeds(init);
        assert(init.push(t.last()) =~= t);
        if t.last() == '\n' {
            let now = before.push(Seq::<char>::empty());
            assert(now.drop_last() =~= before);
            assert(joined(now, sep) =~= t);
        } else {
            let last = before.last().push(t.last());
            let now = before.drop_last().push(last);
            assert(now.drop_last() =~= before.drop_last());
            assert(!before[before.len() - 1].contains('\n'));
            assert(!last.contains('\n')) by {
                if last.contains('\n') {
                    let i = choose|i: int| 0 <= i < last.len() && last[i] == '\n';
                    assert(before.last()[i] == '\n');
                }
            }
            assert forall|i: int| 0 <= i < now.len() implies !(#[trigger] now[i]).contains('\n') by {
                if i < now.len() - 1 {
                    assert(now[i] == before[i]);
                }
            }
            assert(joined(now, sep) =~= t);
        }
    }
}

/// A character below the surrogates' planes is one UTF-16 unit, its own number;
/// any other is a leading and a trailing surrogate. A text's units are those of
/// its characters in order.
pub proof fn utf16_is_the_standard_encoding(t: Seq<char>, c: char)
    ensures
        (c as u32) < 0x10000 ==> units_of(c).len() == 1 && units_of(c)[0] == c as u32,
        (c as u32) >= 0x10000 ==> {
            &&& units_of(c).len() == 2
            &&& 0xd800 <= units_of(c)[0] <= 0xdbff
            &&& 0xdc00 <= units_of(c)[1] <= 0xdfff
            &&& (units_of(c)[0] - 0xd800) * 0x400 + (units_of(c)[1] - 0xdc00) + 0x10000 == c as u32
        },
        utf16(Seq::<char>::empty()) == Seq::<u16>::empty(),
        utf16(t.push(c)) == utf16(t) + units_of(c),
{
    assert(t.push(c).drop_last() =~= t);
    let v = c as int - 0x10000;
    if v >= 0 {
        assert(v / 0x400 < 0x400);
        assert((v / 0x400) * 0x400 + v % 0x400 == v);
    }
}

/// What decodes to a text is that text's encoding: nothing else is taken for it, so
/// a surrogate that stands alone anywhere makes the whole no text.
pub proof fn only_encodings_decode(u: Seq<u16>)
    ensures
        match from_units(u) {
            Some(t) => utf16(t) == u,
            None => forall|t: Seq<char>| #[trigger] utf16(t) != u,
        },
    decreases u.len(),
{
    match from_units(u) {
        Some(t) => {
            if u.len() == 0 {
                assert(utf16(t) =~= u);
            } else if high_surrogate(u[0]) {
                let rest = from_units(u.skip(2)).unwrap();
                only_encodings_decode(u.skip(2));
                let c = paired(u[0], u[1]);
                pairs_encode(u[0], u[1]);
                encoding_starts_with(c, rest);
                assert(units_of(c) + u.skip(2) =~= u);
            } else {
                let rest = from_units(u.skip(1)).unwrap();
                only_encodings_decode(u.skip(1));
                let c = u[0] as char;
                assert(units_of(c) =~= seq![u[0]]);
                encoding_starts_with(c, rest);
                assert(units_of(c) + u.skip(1) =~= u);
            }
        },
        None => {
            assert forall|t: Seq<char>| #[trigger] utf16(t) != u by {
                utf16_round_trips(t);
            }
        },
    }
}

/// The units of a surrogate pair are those of the character that it stands for.
proof fn pairs_encode(hi: u16, lo: u16)
    requires
        high_surrogate(hi),
        low_surrogate(lo),
    ensures
        units_of(paired(hi, lo)) == seq![hi, lo],
{
    let v = 0x10000 + (hi - 0xd800) * 0x400 + (lo - 0xdc00);
    assert(0x10000 <= v <= 0x10ffff);
    assert(paired(hi, lo) as int == v);
    assert((v - 0x10000) / 0x400 == hi - 0xd800);
    assert((v - 0x10000) % 0x400 == lo - 0xdc00);
    assert(units_of(paired(hi, lo)) =~= seq![hi, lo]);
}

/// The encoding of a text starts with that of its first character.
proof fn encoding_starts_with(c: char, t: Seq<char>)
    ensures
        utf16(seq![c] + t) == units_of(c) + utf16(t),
    decreases t.len(),
{
    let all = seq![c] + t;
    if t.len() == 0 {
        assert(all =~= seq![c]);
        assert(all.drop_last() =~= Seq::<char>::empty());
        assert(utf16(all.drop_last()) =~= Seq::<u16>::empty());
        assert(utf16(all) =~= units_of(c) + utf16(t));
    } else {
        encoding_starts_with(c, t.drop_last());
        assert(all.drop_last() =~= seq![c] + t.drop_last());
        assert(all.last() == t.last());
        assert(utf16(all) =~= units_of(c) + utf16(t));
    }
}

/// A surrogate that stands alone is no text.
pub proof fn lone_surrogates_are_no_text(u: u16)
    ensures
        0xd800 <= u <= 0xdfff ==> from_units(seq![u]) is None,
        !(0xd800 <= u <= 0xdfff) ==> from_units(seq![u]) == Some(seq![u as char]),
{
    assert(seq![u].skip(1) =~= Seq::<u16>::empty());
    assert(from_units(Seq::<u16>::empty()) == Some(Seq::<char>::empty()));
    assert(seq![u as char] + Seq::<char>::empty() =~= seq![u as char]);
}

} // verus!
