//! Plain text building blocks: decimal numbers, padding, joining, trimming and
//! searching, each with its meaning as a sequence of characters.

use vstd::prelude::*;
use vstd::string::*;
use vstd::utf8::{decode_utf8, valid_utf8};

verus! {

/// The standard library's `String::push`, which appends one character.
pub assume_specification[ String::push ](s: &mut String, ch: char)
    ensures
        final(s)@ == old(s)@.push(ch),
;

/// The text that `String::from_utf8_lossy` makes of bytes.
pub uninterp spec fn lossy_text(bytes: Seq<u8>) -> Seq<char>;

/// The standard library's `String::from_utf8_lossy`: valid UTF-8 is decoded as
/// it is. What stands for invalid bytes depends on the bytes alone; it is not
/// spelled out.
#[verifier::external_body]
pub(crate) fn decode_lossy(bytes: &[u8]) -> (r: String)
    ensures
        r@ == lossy_text(bytes@),
        valid_utf8(bytes@) ==> r@ == decode_utf8(bytes@),
{
    String::from_utf8_lossy(bytes).into_owned()
}

// ---------------------------------------------------------------------------
// Views of collections of text
// ---------------------------------------------------------------------------

/// The character sequences of a sequence of strings.
pub open spec fn texts(v: Seq<String>) -> Seq<Seq<char>> {
    Seq::new(v.len(), |i: int| v[i]@)
}

/// The character sequences of a sequence of key/value pairs.
pub open spec fn pairs(v: Seq<(String, String)>) -> Seq<(Seq<char>, Seq<char>)> {
    Seq::new(v.len(), |i: int| (v[i].0@, v[i].1@))
}

/// Append one string to a list of strings.
pub fn push_text(lines: &mut Vec<String>, line: String)
    ensures
        texts(final(lines)@) == texts(old(lines)@).push(line@),
{
    lines.push(line);
    assert(texts(lines@) =~= texts(old(lines)@).push(line@));
}

/// A copy of a list of strings.
pub fn copy_texts(lines: &Vec<String>) -> (r: Vec<String>)
    ensures
        texts(r@) == texts(lines@),
{
    let mut out: Vec<String> = Vec::new();
    let mut i: usize = 0;
    while i < lines.len()
        invariant
            0 <= i <= lines@.len(),
            texts(out@) == texts(lines@).take(i as int),
        decreases lines.len() - i,
    {
        push_text(&mut out, lines[i].clone());
        i = i + 1;
        assert(texts(out@) =~= texts(lines@).take(i as int));
    }
    assert(texts(out@) =~= texts(lines@));
    out
}

/// Append one key/value pair to a list of pairs.
pub fn push_pair(rows: &mut Vec<(String, String)>, key: &str, value: String)
    ensures
        pairs(final(rows)@) == pairs(old(rows)@).push((key@, value@)),
{
    rows.push((key.to_string(), value));
    assert(pairs(rows@) =~= pairs(old(rows)@).push((key@, value@)));
}

/// Whether two texts hold the same characters.
pub fn same_text(a: &str, b: &str) -> (r: bool)
    ensures
        r == (a@ == b@),
{
    let left = chars_of(a);
    let right = chars_of(b);
    if left.len() != right.len() {
        return false;
    }
    let mut i: usize = 0;
    while i < left.len()
        invariant
            left@ == a@,
            right@ == b@,
            left@.len() == right@.len(),
            0 <= i <= left.len(),
            forall|k: int| 0 <= k < i ==> left@[k] == right@[k],
        decreases left.len() - i,
    {
        if left[i] != right[i] {
            return false;
        }
        i = i + 1;
    }
    assert(a@ =~= b@);
    true
}

/// The characters of a text, in order.
pub fn chars_of(s: &str) -> (r: Vec<char>)
    ensures
        r@ == s@,
{
    let mut out: Vec<char> = Vec::new();
    for c in it: s.chars()
        invariant
            it.seq() == s@,
            out@ == s@.take(it.index() as int),
    {
        out.push(c);
    }
    assert(out@ =~= s@);
    out
}

/// The text made of the characters `chars[from..to]`.
pub fn text_of(chars: &[char], from: usize, to: usize) -> (r: String)
    requires
        from <= to <= chars@.len(),
    ensures
        r@ == chars@.subrange(from as int, to as int),
{
    let mut out = String::new();
    let mut i: usize = from;
    while i < to
        invariant
            from <= i <= to <= chars@.len(),
            out@ == chars@.subrange(from as int, i as int),
        decreases to - i,
    {
        out.push(chars[i]);
        i = i + 1;
        assert(out@ =~= chars@.subrange(from as int, i as int));
    }
    out
}

// ---------------------------------------------------------------------------
// Numbers
// ---------------------------------------------------------------------------

/// The decimal digit for a number below ten.
pub open spec fn digit(d: nat) -> char {
    (48 + d) as u8 as char
}

/// The decimal form of a number: no sign, no leading zeros, `0` for zero.
pub open spec fn decimal_text(n: nat) -> Seq<char>
    decreases n,
{
    if n < 10 {
        seq![digit(n)]
    } else {
        decimal_text(n / 10).push(digit(n % 10))
    }
}

/// Render a number in decimal.
pub fn decimal(n: u64) -> (r: String)
    ensures
        r@ == decimal_text(n as nat),
    decreases n,
{
    if n < 10 {
        let mut s = String::new();
        s.push((48u8 + n as u8) as char);
        assert(s@ =~= decimal_text(n as nat));
        s
    } else {
        let mut s = decimal(n / 10);
        s.push((48u8 + (n % 10) as u8) as char);
        s
    }
}

/// The number that a decimal text denotes.
pub open spec fn decimal_value(t: Seq<char>) -> int
    decreases t.len(),
{
    if t.len() == 0 {
        0
    } else {
        decimal_value(t.drop_last()) * 10 + (t.last() as int - 48)
    }
}

/// A rendered number reads back as itself.
pub proof fn decimal_round_trips(n: nat)
    ensures
        decimal_value(decimal_text(n)) == n,
        decimal_text(n).len() > 0,
    decreases n,
{
    if n < 10 {
        assert(decimal_text(n).drop_last() =~= Seq::<char>::empty());
        assert(decimal_value(Seq::<char>::empty()) == 0);
        assert(decimal_text(n).last() as int == 48 + n);
    } else {
        decimal_round_trips(n / 10);
        assert(decimal_text(n).drop_last() =~= decimal_text(n / 10));
    }
}

/// Two numbers with one decimal form are one number.
pub proof fn decimal_is_injective(a: nat, b: nat)
    requires
        decimal_text(a) == decimal_text(b),
    ensures
        a == b,
{
    decimal_round_trips(a);
    decimal_round_trips(b);
}

// ---------------------------------------------------------------------------
// Joining and padding
// ---------------------------------------------------------------------------

/// The texts one after the other, with the separator between neighbours.
pub open spec fn joined(parts: Seq<Seq<char>>, sep: Seq<char>) -> Seq<char>
    decreases parts.len(),
{
    if parts.len() == 0 {
        Seq::empty()
    } else if parts.len() == 1 {
        parts[0]
    } else {
        joined(parts.drop_last(), sep) + sep + parts.last()
    }
}

/// Join texts with a separator.
pub fn join(parts: &[String], sep: &str) -> (r: String)
    ensures
        r@ == joined(texts(parts@), sep@),
{
    let mut out = String::new();
    let mut i: usize = 0;
    while i < parts.len()
        invariant
            0 <= i <= parts@.len(),
            out@ == joined(texts(parts@).take(i as int), sep@),
        decreases parts.len() - i,
    {
        if i > 0 {
            out.append(sep);
        }
        out.append(parts[i].as_str());
        proof {
            let next = texts(parts@).take(i as int + 1);
            assert(next.drop_last() =~= texts(parts@).take(i as int));
            assert(next.last() == parts@[i as int]@);
            if i == 0 {
                assert(out@ =~= parts@[0]@);
            }
        }
        i = i + 1;
    }
    assert(texts(parts@).take(parts@.len() as int) =~= texts(parts@));
    out
}

/// `n` copies of a character.
pub open spec fn repeated(c: char, n: nat) -> Seq<char> {
    Seq::new(n, |i: int| c)
}

/// A text made of `n` copies of a character.
pub fn repeat(c: char, n: usize) -> (r: String)
    ensures
        r@ == repeated(c, n as nat),
{
    let mut out = String::new();
    let mut i: usize = 0;
    while i < n
        invariant
            0 <= i <= n,
            out@ == repeated(c, i as nat),
        decreases n - i,
    {
        out.push(c);
        i = i + 1;
        assert(out@ =~= repeated(c, i as nat));
    }
    out
}

/// A text with spaces added on the right up to a width. A longer text is kept.
pub open spec fn padded(t: Seq<char>, width: nat) -> Seq<char> {
    if t.len() < width {
        t + repeated(' ', (width - t.len()) as nat)
    } else {
        t
    }
}

/// Pad a text with spaces on the right.
pub fn pad_right(s: &str, width: usize) -> (r: String)
    ensures
        r@ == padded(s@, width as nat),
{
    let n: usize = s.unicode_len();
    let mut out = s.to_string();
    if n < width {
        let fill = repeat(' ', width - n);
        out.append(fill.as_str());
    }
    out
}

// ---------------------------------------------------------------------------
// White space
// ---------------------------------------------------------------------------

/// The characters with the Unicode property `White_Space`.
pub open spec fn white(c: char) -> bool {
    let v = c as u32;
    ||| 0x9 <= v <= 0xd
    ||| v == 0x20
    ||| v == 0x85
    ||| v == 0xa0
    ||| v == 0x1680
    ||| 0x2000 <= v <= 0x200a
    ||| v == 0x2028
    ||| v == 0x2029
    ||| v == 0x202f
    ||| v == 0x205f
    ||| v == 0x3000
}

/// Whether a character is white space.
pub fn is_white(c: char) -> (r: bool)
    ensures
        r == white(c),
{
    let v: u32 = c as u32;
    (0x9 <= v && v <= 0xd) || v == 0x20 || v == 0x85 || v == 0xa0 || v == 0x1680 || (0x2000 <= v && v
        <= 0x200a) || v == 0x2028 || v == 0x2029 || v == 0x202f || v == 0x205f || v == 0x3000
}

/// A text without the white space at its start.
pub open spec fn trimmed_start(t: Seq<char>) -> Seq<char>
    decreases t.len(),
{
    if t.len() > 0 && white(t[0]) {
        trimmed_start(t.drop_first())
    } else {
        t
    }
}

/// A text without the white space at its end.
pub open spec fn trimmed_end(t: Seq<char>) -> Seq<char>
    decreases t.len(),
{
    if t.len() > 0 && white(t.last()) {
        trimmed_end(t.drop_last())
    } else {
        t
    }
}

/// A text without the white space at either end.
pub open spec fn trimmed(t: Seq<char>) -> Seq<char> {
    trimmed_start(trimmed_end(t))
}

/// Remove the white space at the end of a text.
pub fn trim_end(s: &str) -> (r: String)
    ensures
        r@ == trimmed_end(s@),
{
    let chars = chars_of(s);
    let mut to: usize = chars.len();
    assert(chars@.take(to as int) =~= s@);
    while to > 0 && is_white(chars[to - 1])
        invariant
            chars@ == s@,
            to <= chars@.len(),
            trimmed_end(s@) == trimmed_end(chars@.take(to as int)),
        decreases to,
    {
        assert(chars@.take(to as int).drop_last() =~= chars@.take(to - 1));
        to = to - 1;
    }
    text_of(chars.as_slice(), 0, to)
}

/// Remove the white space at both ends of a text.
pub fn trim(s: &str) -> (r: String)
    ensures
        r@ == trimmed(s@),
{
    let kept = trim_end(s);
    let chars = chars_of(kept.as_str());
    let to: usize = chars.len();
    let mut from: usize = 0;
    assert(chars@.subrange(0, to as int) =~= kept@);
    while from < to && is_white(chars[from])
        invariant
            chars@ == kept@,
            from <= to,
            to == chars@.len(),
            trimmed_start(kept@) == trimmed_start(chars@.subrange(from as int, to as int)),
        decreases to - from,
    {
        assert(chars@.subrange(from as int, to as int).drop_first() =~= chars@.subrange(
            from + 1,
            to as int,
        ));
        from = from + 1;
    }
    text_of(chars.as_slice(), from, to)
}

/// A text with a character other than white space is not trimmed to nothing.
pub proof fn visible_text_survives_trimming(t: Seq<char>, i: int)
    requires
        0 <= i < t.len(),
        !white(t[i]),
    ensures
        trimmed(t).len() > 0,
{
    end_trimming_keeps(t, i);
    start_trimming_keeps(trimmed_end(t), i);
}

proof fn end_trimming_keeps(t: Seq<char>, i: int)
    requires
        0 <= i < t.len(),
        !white(t[i]),
    ensures
        i < trimmed_end(t).len(),
        trimmed_end(t)[i] == t[i],
    decreases t.len(),
{
    if white(t.last()) {
        end_trimming_keeps(t.drop_last(), i);
    }
}

proof fn start_trimming_keeps(t: Seq<char>, i: int)
    requires
        0 <= i < t.len(),
        !white(t[i]),
    ensures
        trimmed_start(t).len() > 0,
    decreases t.len(),
{
    if white(t[0]) {
        start_trimming_keeps(t.drop_first(), i - 1);
    }
}

// ---------------------------------------------------------------------------
// Searching
// ---------------------------------------------------------------------------

/// Whether `needle` stands in `hay` from position `i` on.
pub open spec fn stands_at(hay: Seq<char>, needle: Seq<char>, i: int) -> bool {
    &&& 0 <= i <= hay.len() - needle.len()
    &&& hay.subrange(i, i + needle.len()) == needle
}

/// Whether `needle` occurs somewhere in `hay`.
pub open spec fn occurs(hay: Seq<char>, needle: Seq<char>) -> bool {
    exists|i: int| stands_at(hay, needle, i)
}

/// Whether a text holds another one as a contiguous part.
pub fn contains(hay: &str, needle: &str) -> (r: bool)
    ensures
        r == occurs(hay@, needle@),
{
    let h = chars_of(hay);
    let n = chars_of(needle);
    if n.len() > h.len() {
        return false;
    }
    let last: usize = h.len() - n.len();
    let mut i: usize = 0;
    loop
        invariant
            h@ == hay@,
            n@ == needle@,
            last == h@.len() - n@.len(),
            i <= last,
            h.len() <= usize::MAX,
            forall|k: int| 0 <= k < i ==> !stands_at(hay@, needle@, k),
        decreases last - i,
    {
        let mut k: usize = 0;
        while k < n.len() && h[i + k] == n[k]
            invariant
                h@ == hay@,
                n@ == needle@,
                0 <= k <= n@.len(),
                i + n@.len() <= h@.len() <= usize::MAX,
                forall|j: int| 0 <= j < k ==> h@[i + j] == n@[j],
            decreases n.len() - k,
        {
            k = k + 1;
        }
        if k == n.len() {
            assert(hay@.subrange(i as int, i + needle@.len()) =~= needle@);
            assert(stands_at(hay@, needle@, i as int));
            return true;
        }
        assert(hay@.subrange(i as int, i + needle@.len())[k as int] == h@[i + k]);
        if i == last {
            return false;
        }
        i = i + 1;
    }
}

// ---------------------------------------------------------------------------
// Splitting
// ---------------------------------------------------------------------------

/// The pieces of a text between its line feeds. There is always one more piece
/// than there are line feeds.
pub open spec fn lines_of(t: Seq<char>) -> Seq<Seq<char>>
    decreases t.len(),
{
    if t.len() == 0 {
        seq![Seq::<char>::empty()]
    } else {
        let before = lines_of(t.drop_last());
        if t.last() == '\n' {
            before.push(Seq::<char>::empty())
        } else {
            before.drop_last().push(before.last().push(t.last()))
        }
    }
}

/// Split a text at its line feeds.
pub fn split_lines(s: &str) -> (r: Vec<String>)
    ensures
        texts(r@) == lines_of(s@),
{
    let chars = chars_of(s);
    let mut out: Vec<String> = Vec::new();
    let mut line = String::new();
    let mut i: usize = 0;
    assert(chars@.take(0) =~= Seq::<char>::empty());
    assert(texts(out@).push(line@) =~= lines_of(chars@.take(0)));
    while i < chars.len()
        invariant
            chars@ == s@,
            0 <= i <= chars@.len(),
            texts(out@).push(line@) == lines_of(chars@.take(i as int)),
        decreases chars.len() - i,
    {
        let c: char = chars[i];
        let ghost so_far = lines_of(chars@.take(i as int));
        assert(chars@.take(i as int + 1).drop_last() =~= chars@.take(i as int));
        assert(so_far.last() == line@);
        assert(so_far.drop_last() =~= texts(out@));
        if c == '\n' {
            push_text(&mut out, line);
            line = String::new();
            assert(texts(out@).push(line@) =~= so_far.push(Seq::<char>::empty()));
        } else {
            line.push(c);
        }
        i = i + 1;
    }
    assert(chars@.take(chars@.len() as int) =~= s@);
    push_text(&mut out, line);
    out
}

/// Whether a text holds no line feed.
pub open spec fn single_line(t: Seq<char>) -> bool {
    forall|i: int| 0 <= i < t.len() ==> t[i] != '\n'
}

proof fn one_line_alone(t: Seq<char>)
    requires
        single_line(t),
    ensures
        lines_of(t) == seq![t],
    decreases t.len(),
{
    if t.len() == 0 {
        assert(t =~= Seq::<char>::empty());
    } else {
        let init = t.drop_last();
        assert(t[t.len() - 1] != '\n');
        one_line_alone(init);
        assert(init.push(t.last()) =~= t);
        assert(lines_of(t) =~= seq![t]);
    }
}

proof fn one_line_more(t: Seq<char>, line: Seq<char>)
    requires
        single_line(line),
    ensures
        lines_of(t.push('\n') + line) == lines_of(t).push(line),
    decreases line.len(),
{
    let all = t.push('\n') + line;
    if line.len() == 0 {
        assert(all =~= t.push('\n'));
        assert(all.drop_last() =~= t);
        assert(line =~= Seq::<char>::empty());
    } else {
        let init = line.drop_last();
        assert(line[line.len() - 1] != '\n');
        one_line_more(t, init);
        assert(all.drop_last() =~= t.push('\n') + init);
        assert(all.last() == line.last());
        assert(init.push(line.last()) =~= line);
        assert(lines_of(t).push(init).drop_last() =~= lines_of(t));
    }
}

/// Lines that are joined by line feeds are split into the same lines again.
pub proof fn joined_lines_split(lines: Seq<Seq<char>>)
    requires
        lines.len() > 0,
        forall|i: int| 0 <= i < lines.len() ==> single_line(#[trigger] lines[i]),
    ensures
        lines_of(joined(lines, "\n"@)) == lines,
    decreases lines.len(),
{
    reveal_strlit("\n");
    assert("\n"@ =~= seq!['\n']);
    assert(single_line(lines[lines.len() - 1]));
    if lines.len() == 1 {
        one_line_alone(lines[0]);
        assert(lines =~= seq![lines[0]]);
    } else {
        let init = lines.drop_last();
        assert forall|i: int| 0 <= i < init.len() implies single_line(#[trigger] init[i]) by {
            assert(single_line(lines[i]));
        }
        joined_lines_split(init);
        let before = joined(init, "\n"@);
        assert(before + "\n"@ + lines.last() =~= before.push('\n') + lines.last());
        one_line_more(before, lines.last());
        assert(init.push(lines.last()) =~= lines);
    }
}

/// The part of a text before the first `c` and the part after it, or nothing
/// if the text holds no `c`.
pub open spec fn cut_at_first(t: Seq<char>, c: char) -> Option<(Seq<char>, Seq<char>)>
    decreases t.len(),
{
    if t.len() == 0 {
        None
    } else if t[0] == c {
        Some((Seq::empty(), t.drop_first()))
    } else {
        match cut_at_first(t.drop_first(), c) {
            Some((head, tail)) => Some((seq![t[0]] + head, tail)),
            None => None,
        }
    }
}

/// Split a text at the first occurrence of a character.
pub fn split_once(s: &str, c: char) -> (r: Option<(String, String)>)
    ensures
        match r {
            Some((head, tail)) => cut_at_first(s@, c) == Some((head@, tail@)),
            None => cut_at_first(s@, c) is None,
        },
{
    let chars = chars_of(s);
    let mut i: usize = 0;
    assert(chars@.skip(0) =~= s@);
    assert(chars@.take(0) =~= Seq::<char>::empty());
    assert(forall|x: Seq<char>| Seq::<char>::empty() + x =~= x);
    while i < chars.len() && chars[i] != c
        invariant
            chars@ == s@,
            0 <= i <= chars@.len(),
            match cut_at_first(chars@.skip(i as int), c) {
                Some((head, tail)) => cut_at_first(s@, c) == Some(
                    (chars@.take(i as int) + head, tail),
                ),
                None => cut_at_first(s@, c) is None,
            },
        decreases chars.len() - i,
    {
        proof {
            let rest = chars@.skip(i as int);
            assert(rest.drop_first() =~= chars@.skip(i + 1));
            if let Some((head, tail)) = cut_at_first(rest.drop_first(), c) {
                assert(chars@.take(i as int) + (seq![rest[0]] + head) =~= chars@.take(i + 1) + head);
            }
        }
        i = i + 1;
    }
    if i == chars.len() {
        return None;
    }
    proof {
        assert(chars@.skip(i as int).drop_first() =~= chars@.skip(i + 1));
        assert(chars@.take(i as int) + Seq::<char>::empty() =~= chars@.take(i as int));
    }
    let head = text_of(chars.as_slice(), 0, i);
    let tail = text_of(chars.as_slice(), i + 1, chars.len());
    assert(head@ =~= chars@.take(i as int));
    assert(tail@ =~= chars@.skip(i + 1));
    Some((head, tail))
}

} // verus!
