//! Text fields of the protocol: UTF-16 code units, NUL-terminated or in
//! arrays of a fixed length.
use vstd::prelude::*;

use crate::text::chars_of;
use crate::ygopro::bytes::le_u16s;

verus! {

/// The UTF-16 code units of one character: one unit in the basic plane, a
/// surrogate pair above it.
pub open spec fn utf16_units(c: char) -> Seq<u16> {
    let v = c as u32;
    if v < 0x10000 {
        seq![v as u16]
    } else {
        seq![(0xD800 + (v - 0x10000) / 0x400) as u16, (0xDC00 + (v - 0x10000) % 0x400) as u16]
    }
}

/// The UTF-16 code units of a text.
pub open spec fn utf16_of(s: Seq<char>) -> Seq<u16>
    decreases s.len(),
{
    if s.len() == 0 {
        Seq::empty()
    } else {
        utf16_of(s.drop_last()) + utf16_units(s.last())
    }
}

/// A text of characters from the basic plane has one code unit per
/// character.
pub proof fn lemma_bmp_utf16_len(s: Seq<char>)
    requires
        forall|i: int| 0 <= i < s.len() ==> (s[i] as u32) < 0x10000,
    ensures
        utf16_of(s).len() == s.len(),
    decreases s.len(),
{
    if s.len() > 0 {
        lemma_bmp_utf16_len(s.drop_last());
    }
}

/// What decoding UTF-16LE bytes gives: the text, and whether malformed
/// sequences were met (and replaced).
pub uninterp spec fn utf16le_decoded(bytes: Seq<u8>) -> (Seq<char>, bool);

/// Whether bytes open with a byte order mark that the decoder follows: that
/// of UTF-8, of UTF-16LE or of UTF-16BE.
pub open spec fn starts_with_bom(b: Seq<u8>) -> bool {
    ||| (b.len() >= 3 && b[0] == 0xEF && b[1] == 0xBB && b[2] == 0xBF)
    ||| (b.len() >= 2 && b[0] == 0xFF && b[1] == 0xFE)
    ||| (b.len() >= 2 && b[0] == 0xFE && b[1] == 0xFF)
}

/// A text that holds no NUL and whose UTF-16LE bytes do not open with a
/// byte order mark.
pub open spec fn plain_text(s: Seq<char>) -> bool {
    &&& forall|i: int| 0 <= i < s.len() ==> (s[i] as u32) != 0
    &&& !starts_with_bom(le_u16s(utf16_of(s)))
}

/// Decodes bytes as UTF-16LE with `encoding_rs::UTF_16LE.decode`, which
/// also follows a byte order mark at the front. What the text is in general
/// is named and not stated; stated is that bytes with no byte order mark in
/// front that are the UTF-16LE encoding of a text decode, without errors,
/// to that text.
#[verifier::external_body]
fn decode_utf16le(bytes: &[u8]) -> (r: (String, bool))
    requires
        bytes@.len() <= 0x3fff_ffff,
    ensures
        (r.0@, r.1) == utf16le_decoded(bytes@),
        forall|s: Seq<char>|
            !starts_with_bom(bytes@) && bytes@ == #[trigger] le_u16s(utf16_of(s)) ==> r.0@ == s && !r.1,
{
    let (text, _, had_errors) = encoding_rs::UTF_16LE.decode(bytes);
    (text.into_owned(), had_errors)
}

/// The code units of `s`, in order.
pub fn encode_utf16(s: &str) -> (r: Vec<u16>)
    ensures
        r@ == utf16_of(s@),
{
    let chars = chars_of(s);
    let mut out: Vec<u16> = Vec::new();
    let mut i: usize = 0;
    while i < chars.len()
        invariant
            chars@ == s@,
            i <= chars@.len(),
            out@ == utf16_of(chars@.take(i as int)),
        decreases chars@.len() - i,
    {
        let c = chars[i];
        let v = c as u32;
        proof {
            assert(chars@.take(i + 1).drop_last() =~= chars@.take(i as int));
        }
        if v < 0x10000 {
            out.push(v as u16);
            assert(out@ =~= utf16_of(chars@.take(i + 1)));
        } else {
            out.push((0xD800 + (v - 0x10000) / 0x400) as u16);
            out.push((0xDC00 + (v - 0x10000) % 0x400) as u16);
            assert(out@ =~= utf16_of(chars@.take(i + 1)));
        }
        i = i + 1;
    }
    assert(chars@.take(i as int) =~= s@);
    out
}

/// Whether `array` holds the code units of `s` followed by a NUL, as the
/// arrays that `cast_to_c_array` and `cast_to_fix_length_array` make do.
pub open spec fn holds_text(array: Seq<u16>, s: Seq<char>) -> bool {
    &&& utf16_of(s).len() < array.len()
    &&& array.take(utf16_of(s).len() as int) == utf16_of(s)
    &&& array[utf16_of(s).len() as int] == 0
}

/// A text with no NUL has no zero among its code units.
pub proof fn lemma_units_nonzero(s: Seq<char>)
    requires
        forall|i: int| 0 <= i < s.len() ==> (s[i] as u32) != 0,
    ensures
        forall|j: int| 0 <= j < utf16_of(s).len() ==> utf16_of(s)[j] != 0,
    decreases s.len(),
{
    if s.len() > 0 {
        lemma_units_nonzero(s.drop_last());
        let c = s.last();
        assert((c as u32) != 0);
        let head = utf16_of(s.drop_last());
        let tail = utf16_units(c);
        assert forall|j: int| 0 <= j < tail.len() implies tail[j] != 0 by {
            let v = c as u32;
            if v < 0x10000 {
                assert((v as u16) as u32 == v);
            } else {
                vstd::utf8::char_is_scalar(c);
                assert(v <= 0x10FFFF);
                let hi = 0xD800 + (v - 0x10000) / 0x400;
                let lo = 0xDC00 + (v - 0x10000) % 0x400;
                assert(0xD800 <= hi <= 0xDBFF);
                assert(0xDC00 <= lo <= 0xDFFF);
                assert((hi as u16) as int == hi);
                assert((lo as u16) as int == lo);
            }
        }
        assert forall|j: int| 0 <= j < utf16_of(s).len() implies utf16_of(s)[j] != 0 by {
            if j < head.len() {
                assert(utf16_of(s)[j] == head[j]);
            } else {
                assert(utf16_of(s)[j] == tail[j - head.len()]);
            }
        }
    }
}

/// The index of the first NUL in `units`, if any.
pub open spec fn first_nul(units: Seq<u16>) -> Option<int> {
    if exists|i: int| 0 <= i < units.len() && units[i] == 0 {
        Some(choose|i: int| 0 <= i < units.len() && units[i] == 0 && forall|j: int| 0 <= j < i ==> units[j] != 0)
    } else {
        None
    }
}

/// The text before the first NUL of `units`, decoded as UTF-16LE; `None`
/// where there is no NUL or where the decoder met malformed units.
pub open spec fn spec_cast_to_string(units: Seq<u16>) -> Option<Seq<char>> {
    match first_nul(units) {
        None => None,
        Some(n) => {
            let (text, had_errors) = utf16le_decoded(le_u16s(units.take(n)));
            if had_errors { None } else { Some(text) }
        },
    }
}

/// The text before the first NUL of `array`, decoded as UTF-16LE: `None`
/// where there is no NUL or where the decoder met malformed units.
pub fn cast_to_string(array: &[u16]) -> (r: Option<String>)
    requires
        array@.len() <= 0x1fff_ffff,
    ensures
        match first_nul(array@) {
            None => r is None,
            Some(n) => {
                let (text, had_errors) = utf16le_decoded(le_u16s(array@.take(n)));
                if had_errors { r is None } else { r matches Some(s) && s@ == text }
            },
        },
        match r {
            Some(s) => spec_cast_to_string(array@) == Some(s@),
            None => spec_cast_to_string(array@) is None,
        },
        forall|s: Seq<char>|
            #![trigger utf16_of(s)]
            plain_text(s) && holds_text(array@, s) ==> (r is Some && r->0@ == s),
{
    let mut i: usize = 0;
    while i < array.len() && array[i] != 0
        invariant
            i <= array@.len(),
            forall|j: int| 0 <= j < i ==> array@[j] != 0,
        decreases array@.len() - i,
    {
        i = i + 1;
    }
    if i == array.len() {
        proof {
            assert forall|s: Seq<char>| #![trigger utf16_of(s)] holds_text(array@, s) implies false by {
                let m = utf16_of(s).len() as int;
                assert(array@[m] == 0);
            }
        }
        return None;
    }
    proof {
        let n = choose|k: int| 0 <= k < array@.len() && array@[k] == 0 && forall|j: int| 0 <= j < k ==> array@[j] != 0;
        assert(0 <= i < array@.len() && array@[i as int] == 0);
        if n < i {
        } else if n > i {
        }
        assert(n == i);
    }
    let mut bytes: Vec<u8> = Vec::new();
    let mut k: usize = 0;
    while k < i
        invariant
            i < array@.len(),
            k <= i,
            bytes@ == le_u16s(array@.take(k as int)),
        decreases i - k,
    {
        let u = array[k];
        bytes.push((u % 256) as u8);
        bytes.push((u / 256) as u8);
        k = k + 1;
        assert(bytes@ =~= le_u16s(array@.take(k as int)));
    }
    let (text, had_errors) = decode_utf16le(bytes.as_slice());
    proof {
        assert forall|s: Seq<char>| #![trigger utf16_of(s)] plain_text(s) && holds_text(array@, s) implies !had_errors && text@ == s by {
            lemma_units_nonzero(s);
            let m = utf16_of(s).len() as int;
            if (i as int) < m {
                assert(array@[i as int] == array@.take(m)[i as int]);
            }
            assert(array@.take(i as int) =~= utf16_of(s));
        }
    }
    if had_errors {
        None
    } else {
        Some(text)
    }
}

/// The code units of `message` followed by a NUL.
pub fn cast_to_c_array(message: &str) -> (r: Vec<u16>)
    ensures
        r@ == utf16_of(message@).push(0),
{
    let mut units = encode_utf16(message);
    units.push(0);
    units
}

/// The code units of `message` in an array of `N`, the rest filled with
/// NULs; the message must fit.
pub fn cast_to_fix_length_array<const N: usize>(message: &str) -> (r: [u16; N])
    requires
        utf16_of(message@).len() <= N,
    ensures
        r@ == utf16_of(message@) + Seq::new((N - utf16_of(message@).len()) as nat, |i: int| 0u16),
{
    let units = encode_utf16(message);
    let mut data = [0u16; N];
    let mut i: usize = 0;
    while i < units.len()
        invariant
            units@ == utf16_of(message@),
            units@.len() <= N,
            i <= units@.len(),
            data@.len() == N,
            forall|j: int| 0 <= j < i ==> data@[j] == units@[j],
            forall|j: int| i <= j < N ==> data@[j] == 0,
        decreases units@.len() - i,
    {
        data.set(i, units[i]);
        i = i + 1;
    }
    assert(data@ =~= utf16_of(message@) + Seq::new((N - utf16_of(message@).len()) as nat, |i: int| 0u16));
    data
}

} // verus!
