//! Text as the system holds it: sequences of 16-bit units, ended by a unit
//! of zero.

use vstd::prelude::*;
use vstd::slice::slice_subrange;

verus! {

/// Whether a unit is the first half of a surrogate pair.
pub open spec fn is_high_surrogate(unit: u16) -> bool {
    0xD800 <= unit <= 0xDBFF
}

/// Whether a unit is the second half of a surrogate pair.
pub open spec fn is_low_surrogate(unit: u16) -> bool {
    0xDC00 <= unit <= 0xDFFF
}

/// The character that a high and a low surrogate stand for together.
pub open spec fn surrogate_pair(high: u16, low: u16) -> char {
    (0x10000 + (high - 0xD800) * 0x400 + (low - 0xDC00)) as char
}

/// The text that a sequence of 16-bit units stands for when it is read as
/// UTF-16 and every unit that cannot be read is replaced by U+FFFD: a unit
/// that is no surrogate is the character of that number, a high surrogate
/// with a low one behind it is the character of the pair, and any other
/// surrogate is U+FFFD.
pub open spec fn utf16_lossy(units: Seq<u16>) -> Seq<char>
    decreases units.len(),
{
    if units.len() == 0 {
        Seq::empty()
    } else if !is_high_surrogate(units[0]) && !is_low_surrogate(units[0]) {
        seq![units[0] as char] + utf16_lossy(units.skip(1))
    } else if is_high_surrogate(units[0]) && units.len() >= 2 && is_low_surrogate(units[1]) {
        seq![surrogate_pair(units[0], units[1])] + utf16_lossy(units.skip(2))
    } else {
        seq!['\u{FFFD}'] + utf16_lossy(units.skip(1))
    }
}

/// The 16-bit units of one character in UTF-16: the character itself below
/// 0x10000, else a high and a low surrogate that share its bits.
pub open spec fn utf16_units(c: char) -> Seq<u16> {
    let v = c as u32;
    if v < 0x10000 {
        seq![v as u16]
    } else {
        seq![(0xD800 + (v - 0x10000) / 0x400) as u16, (0xDC00 + (v - 0x10000) % 0x400) as u16]
    }
}

/// The 16-bit units of a text in UTF-16, character after character.
pub open spec fn utf16_encode(text: Seq<char>) -> Seq<u16>
    decreases text.len(),
{
    if text.len() == 0 {
        Seq::empty()
    } else {
        utf16_encode(text.drop_last()) + utf16_units(text.last())
    }
}

/// Whether `len` is the number of units before the first zero unit of
/// `units`, or the number of all its units where none is zero.
pub open spec fn is_wide_len(units: Seq<u16>, len: int) -> bool {
    &&& 0 <= len <= units.len()
    &&& forall|i: int| 0 <= i < len ==> units[i] != 0
    &&& len == units.len() || units[len] == 0
}

/// The number of units before the first zero unit.
pub open spec fn spec_wide_len(units: Seq<u16>) -> int {
    choose|len: int| is_wide_len(units, len)
}

/// Only one number is the length up to the first zero unit.
pub proof fn lemma_wide_len_unique(units: Seq<u16>, len: int)
    requires
        is_wide_len(units, len),
    ensures
        spec_wide_len(units) == len,
{
    let other = spec_wide_len(units);
    assert(is_wide_len(units, other));
    if other < len {
        assert(units[other] != 0);
    }
    if len < other {
        assert(units[len] != 0);
    }
}

/// Calls `String::from_utf16_lossy` of the standard library, which reads
/// the units as UTF-16 and puts U+FFFD in the place of every surrogate that
/// has no partner. That its text is the one `utf16_lossy` describes is
/// taken on trust.
#[verifier::external_body]
fn decode_utf16_lossy(units: &[u16]) -> (text: String)
    ensures
        text@ == utf16_lossy(units@),
{
    String::from_utf16_lossy(units)
}

/// The text of a sequence of UTF-16 units, with U+FFFD for what cannot be
/// read.
pub fn wchar_to_string(wchar: &[u16]) -> (text: String)
    ensures
        text@ == utf16_lossy(wchar@),
{
    decode_utf16_lossy(wchar)
}

/// The number of units before the first zero unit of a buffer, or the
/// length of the buffer where it holds none.
pub fn wide_len(wchar: &[u16]) -> (len: usize)
    ensures
        is_wide_len(wchar@, len as int),
        len == spec_wide_len(wchar@),
{
    let mut i: usize = 0;
    while i < wchar.len() && wchar[i] != 0
        invariant
            i <= wchar@.len(),
            forall|k: int| 0 <= k < i ==> wchar@[k] != 0,
        decreases wchar@.len() - i,
    {
        i += 1;
    }
    proof {
        lemma_wide_len_unique(wchar@, i as int);
    }
    i
}

/// The text of a buffer of UTF-16 units up to its first zero unit. The
/// terminator and what follows it are not part of the text.
pub fn wchar_ptr_to_string(wchar: &[u16]) -> (text: String)
    ensures
        text@ == utf16_lossy(wchar@.take(spec_wide_len(wchar@))),
{
    let len = wide_len(wchar);
    let units = slice_subrange(wchar, 0, len);
    assert(units@ =~= wchar@.take(len as int));
    wchar_to_string(units)
}

/// Appends the UTF-16 units of one character.
fn push_units(out: &mut Vec<u16>, c: char)
    ensures
        final(out)@ == old(out)@ + utf16_units(c),
{
    let v: u32 = c as u32;
    if v < 0x10000 {
        out.push(v as u16);
    } else {
        let rest: u32 = v - 0x10000;
        out.push((0xD800 + rest / 0x400) as u16);
        out.push((0xDC00 + rest % 0x400) as u16);
    }
    assert(final(out)@ =~= old(out)@ + utf16_units(c));
}

/// The UTF-16 units of a text, followed by one unit of zero.
pub fn to_wstring(text: &str) -> (wide: Vec<u16>)
    ensures
        wide@ == utf16_encode(text@).push(0u16),
{
    let len = text.unicode_len();
    let mut wide: Vec<u16> = Vec::new();
    let mut i: usize = 0;
    assert(text@.take(0) =~= Seq::<char>::empty());
    while i < len
        invariant
            i <= len,
            len == text@.len(),
            wide@ == utf16_encode(text@.take(i as int)),
        decreases len - i,
    {
        let c = text.get_char(i);
        push_units(&mut wide, c);
        assert(text@.take(i + 1).drop_last() =~= text@.take(i as int));
        assert(text@.take(i + 1).last() == c);
        i += 1;
    }
    assert(text@.take(len as int) =~= text@);
    wide.push(0);
    wide
}

/// The units of two texts joined are the units of the first followed by
/// those of the second.
pub proof fn lemma_utf16_encode_concat(first: Seq<char>, second: Seq<char>)
    ensures
        utf16_encode(first + second) == utf16_encode(first) + utf16_encode(second),
    decreases second.len(),
{
    if second.len() == 0 {
        assert(first + second =~= first);
        assert(utf16_encode(first) + utf16_encode(second) =~= utf16_encode(first));
    } else {
        lemma_utf16_encode_concat(first, second.drop_last());
        assert((first + second).drop_last() =~= first + second.drop_last());
        assert((first + second).last() == second.last());
        assert(utf16_encode(first + second) =~= utf16_encode(first) + utf16_encode(second));
    }
}

/// Read back, the units of one character followed by any others give that
/// character followed by what the others give.
pub proof fn lemma_utf16_lossy_after_units(c: char, rest: Seq<u16>)
    ensures
        utf16_lossy(utf16_units(c) + rest) == seq![c] + utf16_lossy(rest),
{
    let units = utf16_units(c) + rest;
    let v = c as u32;
    if v < 0x10000 {
        assert(units[0] == v as u16);
        assert(units.skip(1) =~= rest);
        assert(units[0] as char == c);
    } else {
        let offset = (v - 0x10000) as int;
        assert(0 <= offset < 0x100000);
        assert(units[0] == (0xD800 + offset / 0x400) as u16);
        assert(units[1] == (0xDC00 + offset % 0x400) as u16);
        assert(units.skip(2) =~= rest);
        assert(surrogate_pair(units[0], units[1]) == c);
    }
}

/// Reading the UTF-16 units of a text gives the text back: nothing of it is
/// replaced.
pub proof fn lemma_utf16_round_trip(text: Seq<char>)
    ensures
        utf16_lossy(utf16_encode(text)) == text,
    decreases text.len(),
{
    if text.len() == 0 {
        assert(utf16_encode(text) =~= Seq::<u16>::empty());
        assert(utf16_lossy(utf16_encode(text)) =~= text);
    } else {
        let head = seq![text[0]];
        let tail = text.skip(1);
        assert(text =~= head + tail);
        lemma_utf16_encode_concat(head, tail);
        assert(head.drop_last() =~= Seq::<char>::empty());
        assert(utf16_encode(head) =~= utf16_units(text[0])) by {
            assert(utf16_encode(head.drop_last()) =~= Seq::<u16>::empty());
        }
        lemma_utf16_lossy_after_units(text[0], utf16_encode(tail));
        lemma_utf16_round_trip(tail);
    }
}

/// No unit of a character other than zero is zero.
proof fn lemma_utf16_units_without_zero(c: char)
    requires
        c != '\0',
    ensures
        forall|k: int| 0 <= k < utf16_units(c).len() ==> utf16_units(c)[k] != 0,
{
    let v = c as u32;
    assert(v != 0) by {
        assert('\0' as u32 == 0);
    }
    if v >= 0x10000 {
        let offset = (v - 0x10000) as int;
        assert(0 <= offset < 0x100000);
    }
}

/// The units of a text that holds no character zero hold no unit of zero.
pub proof fn lemma_utf16_encode_without_zero(text: Seq<char>)
    requires
        forall|i: int| 0 <= i < text.len() ==> text[i] != '\0',
    ensures
        forall|k: int| 0 <= k < utf16_encode(text).len() ==> utf16_encode(text)[k] != 0,
    decreases text.len(),
{
    if text.len() > 0 {
        let front = text.drop_last();
        assert forall|i: int| 0 <= i < front.len() implies front[i] != '\0' by {
            assert(front[i] == text[i]);
        }
        lemma_utf16_encode_without_zero(front);
        let last = text.last();
        let units = utf16_units(last);
        assert(last == text[text.len() - 1]);
        lemma_utf16_units_without_zero(last);
        let all = utf16_encode(text);
        assert(all == utf16_encode(front) + units);
        assert forall|k: int| 0 <= k < all.len() implies all[k] != 0 by {
            if k < utf16_encode(front).len() {
                assert(all[k] == utf16_encode(front)[k]);
            } else {
                assert(all[k] == units[k - utf16_encode(front).len()]);
            }
        }
    }
}

/// A text without a character zero, made into units with a zero at the end
/// and read up to the first zero unit, is the text again.
pub proof fn lemma_wide_string_reads_back(text: Seq<char>)
    requires
        forall|i: int| 0 <= i < text.len() ==> text[i] != '\0',
    ensures
        ({
            let wide = utf16_encode(text).push(0u16);
            utf16_lossy(wide.take(spec_wide_len(wide))) == text
        }),
{
    let units = utf16_encode(text);
    let wide = units.push(0u16);
    lemma_utf16_encode_without_zero(text);
    assert forall|i: int| 0 <= i < units.len() implies wide[i] != 0 by {
        assert(wide[i] == units[i]);
    }
    assert(is_wide_len(wide, units.len() as int));
    lemma_wide_len_unique(wide, units.len() as int);
    assert(wide.take(units.len() as int) =~= units);
    lemma_utf16_round_trip(text);
}

} // verus!
