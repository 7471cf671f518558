//! Little-endian byte layouts shared by every wire structure of the ygopro
//! protocol: how integers, fixed arrays and greedy trailing vectors are laid
//! out, and the readers and writers that produce and consume them.
use vstd::prelude::*;

verus! {

// ----------------------------------------------------------------------------
//  Layouts
// ----------------------------------------------------------------------------

/// Two little-endian bytes of a `u16`.
pub open spec fn le_u16(x: u16) -> Seq<u8> {
    seq![(x % 256) as u8, (x / 256) as u8]
}

/// Four little-endian bytes of a `u32`.
pub open spec fn le_u32(x: u32) -> Seq<u8> {
    seq![(x % 256) as u8, ((x / 256) % 256) as u8, ((x / 65536) % 256) as u8, (x / 16777216) as u8]
}

/// The two's complement bit pattern of an `i32`, as an unsigned number.
pub open spec fn i32_bits(x: i32) -> u32 {
    if x >= 0 { x as u32 } else { (x + 0x1_0000_0000) as u32 }
}

/// The `i32` whose two's complement bit pattern is `b`.
pub open spec fn i32_of_bits(b: u32) -> i32 {
    if b < 0x8000_0000 { b as i32 } else { (b - 0x1_0000_0000) as i32 }
}

/// Four little-endian bytes of an `i32` in two's complement.
pub open spec fn le_i32(x: i32) -> Seq<u8> {
    le_u32(i32_bits(x))
}

/// The byte of an `i8` in two's complement.
pub open spec fn i8_byte(x: i8) -> u8 {
    if x >= 0 { x as u8 } else { (x + 256) as u8 }
}

/// The `i8` whose two's complement byte is `b`.
pub open spec fn i8_of_byte(b: u8) -> i8 {
    if b < 128 { b as i8 } else { (b - 256) as i8 }
}

/// A boolean is one byte, `0` or `1`.
pub open spec fn bool_byte(b: bool) -> u8 {
    if b { 1 } else { 0 }
}

/// The `u16` stored little-endian at `pos`.
pub open spec fn u16_at(s: Seq<u8>, pos: int) -> u16 {
    (s[pos] + 256 * s[pos + 1]) as u16
}

/// The `u32` stored little-endian at `pos`.
pub open spec fn u32_at(s: Seq<u8>, pos: int) -> u32 {
    (s[pos] + 256 * s[pos + 1] + 65536 * s[pos + 2] + 16777216 * s[pos + 3]) as u32
}

/// Consecutive little-endian `u16`s, two bytes each.
pub open spec fn le_u16s(v: Seq<u16>) -> Seq<u8> {
    Seq::new(2 * v.len(), |i: int| if i % 2 == 0 { (v[i / 2] % 256) as u8 } else { (v[i / 2] / 256) as u8 })
}

/// Consecutive little-endian `u32`s, four bytes each.
pub open spec fn le_u32s(v: Seq<u32>) -> Seq<u8>
    decreases v.len(),
{
    if v.len() == 0 { seq![] } else { le_u32s(v.drop_last()) + le_u32(v.last()) }
}

/// Little-endian layouts put the low byte first: read back as digits of
/// base 256, from the first byte up, the bytes give the number.
pub proof fn law_little_endian(x: u16, y: u32, z: i32, v: Seq<u16>)
    ensures
        le_u16(x).len() == 2,
        le_u16(x)[0] + 256 * le_u16(x)[1] == x,
        le_u32(y).len() == 4,
        le_u32(y)[0] + 256 * le_u32(y)[1] + 65536 * le_u32(y)[2] + 16777216 * le_u32(y)[3] == y,
        le_i32(z)[0] + 256 * le_i32(z)[1] + 65536 * le_i32(z)[2] + 16777216 * le_i32(z)[3]
            == (if z >= 0 { z as int } else { z + 0x1_0000_0000 }),
        le_u16s(v).len() == 2 * v.len(),
        forall|i: int| 0 <= i < v.len() ==> le_u16s(v)[2 * i] + 256 * le_u16s(v)[2 * i + 1] == #[trigger] v[i],
{
    assert(y == y % 256 + 256 * ((y / 256) % 256) + 65536 * ((y / 65536) % 256) + 16777216 * (y / 16777216)) by (nonlinear_arith);
    let w = i32_bits(z);
    assert(w == w % 256 + 256 * ((w / 256) % 256) + 65536 * ((w / 65536) % 256) + 16777216 * (w / 16777216)) by (nonlinear_arith);
    assert forall|i: int| 0 <= i < v.len() implies le_u16s(v)[2 * i] + 256 * le_u16s(v)[2 * i + 1] == #[trigger] v[i] by {
        assert((2 * i) / 2 == i);
        assert((2 * i + 1) / 2 == i);
        assert((2 * i) % 2 == 0);
        assert((2 * i + 1) % 2 == 1);
    }
}

/// The first `n` little-endian `u16`s of `s`.
pub open spec fn u16s_of(s: Seq<u8>, n: nat) -> Seq<u16> {
    Seq::new(n, |i: int| u16_at(s, 2 * i))
}

/// The first `n` little-endian `u32`s of `s`.
pub open spec fn u32s_of(s: Seq<u8>, n: nat) -> Seq<u32> {
    Seq::new(n, |i: int| u32_at(s, 4 * i))
}

// ----------------------------------------------------------------------------
//  Taking a value off the front of a byte sequence
// ----------------------------------------------------------------------------

#[verifier::opaque]
pub open spec fn take_u8(s: Seq<u8>) -> Option<(u8, Seq<u8>)> {
    if s.len() >= 1 { Some((s[0], s.skip(1))) } else { None }
}

#[verifier::opaque]
pub open spec fn take_i8(s: Seq<u8>) -> Option<(i8, Seq<u8>)> {
    if s.len() >= 1 { Some((i8_of_byte(s[0]), s.skip(1))) } else { None }
}

/// A boolean byte other than `0` or `1` is refused.
#[verifier::opaque]
pub open spec fn take_bool(s: Seq<u8>) -> Option<(bool, Seq<u8>)> {
    if s.len() >= 1 && s[0] <= 1 { Some((s[0] == 1, s.skip(1))) } else { None }
}

#[verifier::opaque]
pub open spec fn take_u16(s: Seq<u8>) -> Option<(u16, Seq<u8>)> {
    if s.len() >= 2 { Some((u16_at(s, 0), s.skip(2))) } else { None }
}

#[verifier::opaque]
pub open spec fn take_u32(s: Seq<u8>) -> Option<(u32, Seq<u8>)> {
    if s.len() >= 4 { Some((u32_at(s, 0), s.skip(4))) } else { None }
}

#[verifier::opaque]
pub open spec fn take_i32(s: Seq<u8>) -> Option<(i32, Seq<u8>)> {
    if s.len() >= 4 { Some((i32_of_bits(u32_at(s, 0)), s.skip(4))) } else { None }
}

/// Exactly `n` little-endian `u16`s.
#[verifier::opaque]
pub open spec fn take_u16s(s: Seq<u8>, n: nat) -> Option<(Seq<u16>, Seq<u8>)> {
    if s.len() >= 2 * n { Some((u16s_of(s, n), s.skip((2 * n) as int))) } else { None }
}

/// Exactly `n` little-endian `u32`s.
#[verifier::opaque]
pub open spec fn take_u32s(s: Seq<u8>, n: nat) -> Option<(Seq<u32>, Seq<u8>)> {
    if s.len() >= 4 * n { Some((u32s_of(s, n), s.skip((4 * n) as int))) } else { None }
}

/// Exactly `n` bytes.
#[verifier::opaque]
pub open spec fn take_bytes(s: Seq<u8>, n: nat) -> Option<(Seq<u8>, Seq<u8>)> {
    if s.len() >= n { Some((s.take(n as int), s.skip(n as int))) } else { None }
}

pub open spec fn min_nat(a: nat, b: nat) -> nat {
    if a <= b { a } else { b }
}

/// As many whole `u16`s as the input holds, at most `cap`: a greedy
/// trailing vector never fails.
#[verifier::opaque]
pub open spec fn take_u16s_greedy(s: Seq<u8>, cap: nat) -> (Seq<u16>, Seq<u8>) {
    let n = min_nat(s.len() / 2, cap);
    (u16s_of(s, n), s.skip((2 * n) as int))
}

/// As many whole `u32`s as the input holds, at most `cap`.
#[verifier::opaque]
pub open spec fn take_u32s_greedy(s: Seq<u8>, cap: nat) -> (Seq<u32>, Seq<u8>) {
    let n = min_nat(s.len() / 4, cap);
    (u32s_of(s, n), s.skip((4 * n) as int))
}

/// As many bytes as the input holds, at most `cap`.
#[verifier::opaque]
pub open spec fn take_bytes_greedy(s: Seq<u8>, cap: nat) -> (Seq<u8>, Seq<u8>) {
    let n = min_nat(s.len(), cap);
    (s.take(n as int), s.skip(n as int))
}

// ----------------------------------------------------------------------------
//  Round trips of the primitive layouts
// ----------------------------------------------------------------------------

pub proof fn lemma_u16_roundtrip(x: u16, rest: Seq<u8>)
    ensures
        take_u16(le_u16(x) + rest) == Some((x, rest)),
{
    reveal(take_u16);
    let s = le_u16(x) + rest;
    assert(s.skip(2) =~= rest);
}

pub proof fn lemma_u32_roundtrip(x: u32, rest: Seq<u8>)
    ensures
        take_u32(le_u32(x) + rest) == Some((x, rest)),
{
    reveal(take_u32);
    let s = le_u32(x) + rest;
    assert(s.skip(4) =~= rest);
    assert(u32_at(s, 0) == x) by (nonlinear_arith)
        requires
            s[0] == (x % 256) as u8,
            s[1] == ((x / 256) % 256) as u8,
            s[2] == ((x / 65536) % 256) as u8,
            s[3] == (x / 16777216) as u8,
    ;
}

pub proof fn lemma_i32_roundtrip(x: i32, rest: Seq<u8>)
    ensures
        take_i32(le_i32(x) + rest) == Some((x, rest)),
{
    reveal(take_i32);
    lemma_u32_roundtrip(i32_bits(x), rest);
}

pub proof fn lemma_u8_roundtrip(x: u8, rest: Seq<u8>)
    ensures
        take_u8(seq![x] + rest) == Some((x, rest)),
{
    reveal(take_u8);
    assert((seq![x] + rest).skip(1) =~= rest);
}

pub proof fn lemma_i8_roundtrip(x: i8, rest: Seq<u8>)
    ensures
        take_i8(seq![i8_byte(x)] + rest) == Some((x, rest)),
{
    reveal(take_i8);
    assert((seq![i8_byte(x)] + rest).skip(1) =~= rest);
}

pub proof fn lemma_bool_roundtrip(x: bool, rest: Seq<u8>)
    ensures
        take_bool(seq![bool_byte(x)] + rest) == Some((x, rest)),
{
    reveal(take_bool);
    assert((seq![bool_byte(x)] + rest).skip(1) =~= rest);
}

pub proof fn lemma_u16s_roundtrip(v: Seq<u16>, rest: Seq<u8>)
    ensures
        take_u16s(le_u16s(v) + rest, v.len()) == Some((v, rest)),
{
    reveal(take_u16s);
    let s = le_u16s(v) + rest;
    assert(s.skip((2 * v.len()) as int) =~= rest);
    assert(u16s_of(s, v.len()) =~= v);
}

pub proof fn lemma_u16s_greedy_roundtrip(v: Seq<u16>, cap: nat)
    requires
        v.len() <= cap,
    ensures
        take_u16s_greedy(le_u16s(v), cap) == (v, Seq::<u8>::empty()),
{
    reveal(take_u16s_greedy);
    let t = le_u16s(v);
    assert(t =~= t + Seq::<u8>::empty());
    lemma_u16s_roundtrip(v, Seq::<u8>::empty());
    assert(u16s_of(t, v.len()) =~= v);
    assert(t.skip((2 * v.len()) as int) =~= Seq::<u8>::empty());
}

pub proof fn lemma_le_u32s_len(v: Seq<u32>)
    ensures
        le_u32s(v).len() == 4 * v.len(),
    decreases v.len(),
{
    if v.len() > 0 {
        lemma_le_u32s_len(v.drop_last());
    }
}

pub proof fn lemma_le_u32s_index(v: Seq<u32>, i: int)
    requires
        0 <= i < v.len(),
    ensures
        le_u32s(v).len() == 4 * v.len(),
        le_u32s(v).subrange(4 * i, 4 * i + 4) == le_u32(v[i]),
    decreases v.len(),
{
    lemma_le_u32s_len(v);
    lemma_le_u32s_len(v.drop_last());
    if i < v.len() - 1 {
        lemma_le_u32s_index(v.drop_last(), i);
        assert(le_u32s(v).subrange(4 * i, 4 * i + 4) =~= le_u32s(v.drop_last()).subrange(4 * i, 4 * i + 4));
    } else {
        assert(le_u32s(v).subrange(4 * i, 4 * i + 4) =~= le_u32(v.last()));
    }
}

pub proof fn lemma_u32s_roundtrip(v: Seq<u32>, cap: nat)
    requires
        v.len() <= cap,
    ensures
        take_u32s_greedy(le_u32s(v), cap) == (v, Seq::<u8>::empty()),
{
    reveal(take_u32s_greedy);
    let t = le_u32s(v);
    lemma_le_u32s_len(v);
    assert forall|i: int| 0 <= i < v.len() implies #[trigger] u32s_of(t, v.len())[i] == v[i] by {
        lemma_le_u32s_index(v, i);
        let sub = t.subrange(4 * i, 4 * i + 4);
        assert(sub[0] == t[4 * i] && sub[1] == t[4 * i + 1] && sub[2] == t[4 * i + 2] && sub[3] == t[4 * i + 3]);
        lemma_u32_roundtrip(v[i], Seq::<u8>::empty());
        assert(sub =~= le_u32(v[i]) + Seq::<u8>::empty());
    }
    assert(u32s_of(t, v.len()) =~= v);
    assert(t.skip((4 * v.len()) as int) =~= Seq::<u8>::empty());
}

pub proof fn lemma_bytes_roundtrip(v: Seq<u8>, cap: nat)
    requires
        v.len() <= cap,
    ensures
        take_bytes_greedy(v, cap) == (v, Seq::<u8>::empty()),
{
    reveal(take_bytes_greedy);
    assert(v.take(v.len() as int) =~= v);
    assert(v.skip(v.len() as int) =~= Seq::<u8>::empty());
}

// ----------------------------------------------------------------------------
//  Writers
// ----------------------------------------------------------------------------

pub fn push_u8(out: &mut Vec<u8>, x: u8)
    ensures
        final(out)@ == old(out)@ + seq![x],
{
    out.push(x);
}

pub fn push_i8(out: &mut Vec<u8>, x: i8)
    ensures
        final(out)@ == old(out)@ + seq![i8_byte(x)],
{
    let b: u8 = if x >= 0 { x as u8 } else { (x as i16 + 256) as u8 };
    out.push(b);
}

pub fn push_bool(out: &mut Vec<u8>, x: bool)
    ensures
        final(out)@ == old(out)@ + seq![bool_byte(x)],
{
    out.push(if x { 1u8 } else { 0u8 });
}

pub fn push_u16(out: &mut Vec<u8>, x: u16)
    ensures
        final(out)@ == old(out)@ + le_u16(x),
{
    out.push((x % 256) as u8);
    out.push((x / 256) as u8);
    assert(out@ =~= old(out)@ + le_u16(x));
}

pub fn push_u32(out: &mut Vec<u8>, x: u32)
    ensures
        final(out)@ == old(out)@ + le_u32(x),
{
    out.push((x % 256) as u8);
    out.push(((x / 256) % 256) as u8);
    out.push(((x / 65536) % 256) as u8);
    out.push((x / 16777216) as u8);
    assert(out@ =~= old(out)@ + le_u32(x));
}

pub fn push_i32(out: &mut Vec<u8>, x: i32)
    ensures
        final(out)@ == old(out)@ + le_i32(x),
{
    let b: u32 = if x >= 0 { x as u32 } else { (x as i64 + 0x1_0000_0000i64) as u32 };
    push_u32(out, b);
}

pub fn push_u16s(out: &mut Vec<u8>, v: &[u16])
    ensures
        final(out)@ == old(out)@ + le_u16s(v@),
{
    let ghost start = out@;
    let n = v.len();
    let mut i: usize = 0;
    while i < n
        invariant
            n == v@.len(),
            i <= n,
            out@ == start + le_u16s(v@.take(i as int)),
        decreases n - i,
    {
        let x = v[i];
        proof {
            assert(le_u16s(v@.take(i + 1)) =~= le_u16s(v@.take(i as int)) + le_u16(x));
        }
        push_u16(out, x);
        i = i + 1;
    }
    assert(v@.take(n as int) =~= v@);
}

pub fn push_u32s(out: &mut Vec<u8>, v: &[u32])
    ensures
        final(out)@ == old(out)@ + le_u32s(v@),
{
    let ghost start = out@;
    let n = v.len();
    let mut i: usize = 0;
    while i < n
        invariant
            n == v@.len(),
            i <= n,
            out@ == start + le_u32s(v@.take(i as int)),
        decreases n - i,
    {
        let x = v[i];
        proof {
            assert(v@.take(i + 1).drop_last() =~= v@.take(i as int));
        }
        push_u32(out, x);
        i = i + 1;
        assert(out@ =~= start + le_u32s(v@.take(i as int)));
    }
    assert(v@.take(n as int) =~= v@);
}

pub fn push_bytes(out: &mut Vec<u8>, v: &[u8])
    ensures
        final(out)@ == old(out)@ + v@,
{
    let ghost start = out@;
    let n = v.len();
    let mut i: usize = 0;
    while i < n
        invariant
            n == v@.len(),
            i <= n,
            out@ == start + v@.take(i as int),
        decreases n - i,
    {
        out.push(v[i]);
        i = i + 1;
        assert(out@ =~= start + v@.take(i as int));
    }
    assert(v@.take(n as int) =~= v@);
}

// ----------------------------------------------------------------------------
//  Readers: each reads at `pos` and agrees with the matching `take_*` on
//  `data@.skip(pos)`; the returned position is where the rest starts.
// ----------------------------------------------------------------------------

pub open spec fn read_agrees<T>(spec: Option<(T, Seq<u8>)>, r: Option<(T, usize)>, data: Seq<u8>) -> bool {
    match spec {
        None => r is None,
        Some((v, rest)) => r matches Some((w, p)) && w == v && p <= data.len() && rest == data.skip(p as int),
    }
}

pub fn read_u8(data: &[u8], pos: usize) -> (r: Option<(u8, usize)>)
    requires
        pos <= data@.len(),
    ensures
        read_agrees(take_u8(data@.skip(pos as int)), r, data@),
{
    proof { reveal(take_u8); }
    if data.len() - pos >= 1 {
        assert(data@.skip(pos as int).skip(1) =~= data@.skip(pos + 1));
        Some((data[pos], pos + 1))
    } else {
        None
    }
}

pub fn read_i8(data: &[u8], pos: usize) -> (r: Option<(i8, usize)>)
    requires
        pos <= data@.len(),
    ensures
        read_agrees(take_i8(data@.skip(pos as int)), r, data@),
{
    proof { reveal(take_i8); }
    if data.len() - pos >= 1 {
        assert(data@.skip(pos as int).skip(1) =~= data@.skip(pos + 1));
        let b = data[pos];
        let v: i8 = if b < 128 { b as i8 } else { (b as i16 - 256) as i8 };
        Some((v, pos + 1))
    } else {
        None
    }
}

pub fn read_bool(data: &[u8], pos: usize) -> (r: Option<(bool, usize)>)
    requires
        pos <= data@.len(),
    ensures
        read_agrees(take_bool(data@.skip(pos as int)), r, data@),
{
    proof { reveal(take_bool); }
    if data.len() - pos >= 1 && data[pos] <= 1 {
        assert(data@.skip(pos as int).skip(1) =~= data@.skip(pos + 1));
        Some((data[pos] == 1, pos + 1))
    } else {
        None
    }
}

pub fn read_u16(data: &[u8], pos: usize) -> (r: Option<(u16, usize)>)
    requires
        pos <= data@.len(),
    ensures
        read_agrees(take_u16(data@.skip(pos as int)), r, data@),
{
    proof { reveal(take_u16); }
    if data.len() - pos >= 2 {
        assert(data@.skip(pos as int).skip(2) =~= data@.skip(pos + 2));
        let v: u16 = (data[pos] as u16) + 256 * (data[pos + 1] as u16);
        Some((v, pos + 2))
    } else {
        None
    }
}

pub fn read_u32(data: &[u8], pos: usize) -> (r: Option<(u32, usize)>)
    requires
        pos <= data@.len(),
    ensures
        read_agrees(take_u32(data@.skip(pos as int)), r, data@),
{
    proof { reveal(take_u32); }
    if data.len() - pos >= 4 {
        assert(data@.skip(pos as int).skip(4) =~= data@.skip(pos + 4));
        let v: u32 = (data[pos] as u32) + 256 * (data[pos + 1] as u32) + 65536 * (data[pos + 2] as u32)
            + 16777216 * (data[pos + 3] as u32);
        Some((v, pos + 4))
    } else {
        None
    }
}

pub fn read_i32(data: &[u8], pos: usize) -> (r: Option<(i32, usize)>)
    requires
        pos <= data@.len(),
    ensures
        read_agrees(take_i32(data@.skip(pos as int)), r, data@),
{
    proof { reveal(take_i32); reveal(take_u32); }
    match read_u32(data, pos) {
        None => None,
        Some((b, p)) => {
            let v: i32 = if b < 0x8000_0000 { b as i32 } else { (b as i64 - 0x1_0000_0000i64) as i32 };
            Some((v, p))
        },
    }
}

pub fn read_u16s(data: &[u8], pos: usize, n: usize) -> (r: Option<(Vec<u16>, usize)>)
    requires
        pos <= data@.len(),
    ensures
        match take_u16s(data@.skip(pos as int), n as nat) {
            None => r is None,
            Some((v, rest)) => r matches Some((w, p)) && w@ == v && p <= data@.len() && rest == data@.skip(p as int),
        },
{
    proof { reveal(take_u16s); }
    if (data.len() - pos) / 2 < n {
        return None;
    }
    let mut out: Vec<u16> = Vec::new();
    let mut i: usize = 0;
    while i < n
        invariant
            pos <= data@.len(),
            data@.len() == data.len(),
            pos + 2 * n <= data@.len(),
            i <= n,
            out@ =~= u16s_of(data@.skip(pos as int), i as nat),
        decreases n - i,
    {
        let p = pos + 2 * i;
        let v: u16 = (data[p] as u16) + 256 * (data[p + 1] as u16);
        out.push(v);
        i = i + 1;
    }
    assert(data@.skip(pos as int).skip(2 * n) =~= data@.skip(pos + 2 * n));
    Some((out, pos + 2 * n))
}

pub fn read_u16s_greedy(data: &[u8], pos: usize, cap: usize) -> (r: (Vec<u16>, usize))
    requires
        pos <= data@.len(),
    ensures
        r.0@ == take_u16s_greedy(data@.skip(pos as int), cap as nat).0,
        r.1 <= data@.len(),
        take_u16s_greedy(data@.skip(pos as int), cap as nat).1 == data@.skip(r.1 as int),
{
    proof { reveal(take_u16s_greedy); }
    let avail = (data.len() - pos) / 2;
    let n = if avail <= cap { avail } else { cap };
    let mut out: Vec<u16> = Vec::new();
    let mut i: usize = 0;
    while i < n
        invariant
            pos <= data@.len(),
            data@.len() == data.len(),
            pos + 2 * n <= data@.len(),
            i <= n,
            out@ =~= u16s_of(data@.skip(pos as int), i as nat),
        decreases n - i,
    {
        let p = pos + 2 * i;
        let v: u16 = (data[p] as u16) + 256 * (data[p + 1] as u16);
        out.push(v);
        i = i + 1;
    }
    assert(data@.skip(pos as int).skip(2 * n) =~= data@.skip(pos + 2 * n));
    (out, pos + 2 * n)
}

pub fn read_u32s(data: &[u8], pos: usize, n: usize) -> (r: Option<(Vec<u32>, usize)>)
    requires
        pos <= data@.len(),
    ensures
        match take_u32s(data@.skip(pos as int), n as nat) {
            None => r is None,
            Some((v, rest)) => r matches Some((w, p)) && w@ == v && p <= data@.len() && rest == data@.skip(p as int),
        },
{
    proof { reveal(take_u32s); }
    if (data.len() - pos) / 4 < n {
        return None;
    }
    let mut out: Vec<u32> = Vec::new();
    let mut i: usize = 0;
    while i < n
        invariant
            pos <= data@.len(),
            data@.len() == data.len(),
            pos + 4 * n <= data@.len(),
            i <= n,
            out@ =~= u32s_of(data@.skip(pos as int), i as nat),
        decreases n - i,
    {
        let p = pos + 4 * i;
        let v: u32 = (data[p] as u32) + 256 * (data[p + 1] as u32) + 65536 * (data[p + 2] as u32)
            + 16777216 * (data[p + 3] as u32);
        out.push(v);
        i = i + 1;
    }
    assert(data@.skip(pos as int).skip(4 * n) =~= data@.skip(pos + 4 * n));
    Some((out, pos + 4 * n))
}

pub fn read_u32s_greedy(data: &[u8], pos: usize, cap: usize) -> (r: (Vec<u32>, usize))
    requires
        pos <= data@.len(),
    ensures
        r.0@ == take_u32s_greedy(data@.skip(pos as int), cap as nat).0,
        r.1 <= data@.len(),
        take_u32s_greedy(data@.skip(pos as int), cap as nat).1 == data@.skip(r.1 as int),
{
    proof { reveal(take_u32s_greedy); }
    let avail = (data.len() - pos) / 4;
    let n = if avail <= cap { avail } else { cap };
    let mut out: Vec<u32> = Vec::new();
    let mut i: usize = 0;
    while i < n
        invariant
            pos <= data@.len(),
            data@.len() == data.len(),
            pos + 4 * n <= data@.len(),
            i <= n,
            out@ =~= u32s_of(data@.skip(pos as int), i as nat),
        decreases n - i,
    {
        let p = pos + 4 * i;
        let v: u32 = (data[p] as u32) + 256 * (data[p + 1] as u32) + 65536 * (data[p + 2] as u32)
            + 16777216 * (data[p + 3] as u32);
        out.push(v);
        i = i + 1;
    }
    assert(data@.skip(pos as int).skip(4 * n) =~= data@.skip(pos + 4 * n));
    (out, pos + 4 * n)
}

pub fn read_bytes(data: &[u8], pos: usize, n: usize) -> (r: Option<(Vec<u8>, usize)>)
    requires
        pos <= data@.len(),
    ensures
        match take_bytes(data@.skip(pos as int), n as nat) {
            None => r is None,
            Some((v, rest)) => r matches Some((w, p)) && w@ == v && p <= data@.len() && rest == data@.skip(p as int),
        },
{
    proof { reveal(take_bytes); }
    if data.len() - pos < n {
        return None;
    }
    let mut out: Vec<u8> = Vec::new();
    let mut i: usize = 0;
    while i < n
        invariant
            pos + n <= data@.len(),
            data@.len() == data.len(),
            i <= n,
            out@ =~= data@.skip(pos as int).take(i as int),
        decreases n - i,
    {
        out.push(data[pos + i]);
        i = i + 1;
    }
    assert(data@.skip(pos as int).skip(n as int) =~= data@.skip(pos + n));
    Some((out, pos + n))
}

pub fn read_bytes_greedy(data: &[u8], pos: usize, cap: usize) -> (r: (Vec<u8>, usize))
    requires
        pos <= data@.len(),
    ensures
        r.0@ == take_bytes_greedy(data@.skip(pos as int), cap as nat).0,
        r.1 <= data@.len(),
        take_bytes_greedy(data@.skip(pos as int), cap as nat).1 == data@.skip(r.1 as int),
{
    proof { reveal(take_bytes_greedy); reveal(take_bytes); }
    let avail = data.len() - pos;
    let n = if avail <= cap { avail } else { cap };
    match read_bytes(data, pos, n) {
        Some((v, p)) => (v, p),
        None => (Vec::new(), pos),
    }
}

// ----------------------------------------------------------------------------
//  Fixed arrays
// ----------------------------------------------------------------------------

pub proof fn lemma_take_bytes_roundtrip(v: Seq<u8>, rest: Seq<u8>)
    ensures
        take_bytes(v + rest, v.len()) == Some((v, rest)),
{
    reveal(take_bytes);
    assert((v + rest).take(v.len() as int) =~= v);
    assert((v + rest).skip(v.len() as int) =~= rest);
}

pub fn push_u16_array20(out: &mut Vec<u8>, a: &[u16; 20])
    ensures
        final(out)@ == old(out)@ + le_u16s(a@),
{
    let ghost start = out@;
    let mut i: usize = 0;
    while i < 20
        invariant
            i <= 20,
            out@ == start + le_u16s(a@.take(i as int)),
        decreases 20 - i,
    {
        let x = a[i];
        proof {
            assert(le_u16s(a@.take(i + 1)) =~= le_u16s(a@.take(i as int)) + le_u16(x));
        }
        push_u16(out, x);
        i = i + 1;
    }
    assert(a@.take(20) =~= a@);
}

pub fn push_u8_array3(out: &mut Vec<u8>, a: &[u8; 3])
    ensures
        final(out)@ == old(out)@ + a@,
{
    out.push(a[0]);
    out.push(a[1]);
    out.push(a[2]);
    assert(out@ =~= old(out)@ + a@);
}

pub fn read_u16_array20(data: &[u8], pos: usize) -> (r: Option<([u16; 20], usize)>)
    requires
        pos <= data@.len(),
    ensures
        match take_u16s(data@.skip(pos as int), 20) {
            None => r is None,
            Some((v, rest)) => r matches Some((w, p)) && w@ == v && p <= data@.len() && rest == data@.skip(p as int),
        },
{
    proof { reveal(take_u16s); }
    if (data.len() - pos) / 2 < 20 {
        return None;
    }
    let mut out: [u16; 20] = [0u16; 20];
    let mut i: usize = 0;
    while i < 20
        invariant
            pos <= data@.len(),
            data@.len() == data.len(),
            pos + 40 <= data@.len(),
            i <= 20,
            forall|j: int| 0 <= j < i ==> out@[j] == #[trigger] u16s_of(data@.skip(pos as int), 20)[j],
        decreases 20 - i,
    {
        let p = pos + 2 * i;
        let v: u16 = (data[p] as u16) + 256 * (data[p + 1] as u16);
        out[i] = v;
        i = i + 1;
    }
    assert(out@ =~= u16s_of(data@.skip(pos as int), 20));
    assert(data@.skip(pos as int).skip(40) =~= data@.skip(pos + 40));
    Some((out, pos + 40))
}

pub fn read_u8_array3(data: &[u8], pos: usize) -> (r: Option<([u8; 3], usize)>)
    requires
        pos <= data@.len(),
    ensures
        match take_bytes(data@.skip(pos as int), 3) {
            None => r is None,
            Some((v, rest)) => r matches Some((w, p)) && w@ == v && p <= data@.len() && rest == data@.skip(p as int),
        },
{
    proof { reveal(take_bytes); }
    if data.len() - pos < 3 {
        return None;
    }
    let out: [u8; 3] = [data[pos], data[pos + 1], data[pos + 2]];
    assert(out@ =~= data@.skip(pos as int).take(3));
    assert(data@.skip(pos as int).skip(3) =~= data@.skip(pos + 3));
    Some((out, pos + 3))
}

} // verus!
