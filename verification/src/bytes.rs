//! Unsigned integers as byte strings, little-endian and big-endian.
//!
//! Every wire format of this crate is stated over the four spec functions
//! `le_value`, `be_value`, `le_bytes` and `be_bytes`; the executable readers and
//! writers below are proved against them.

use vstd::prelude::*;

verus! {

/// `256^n`.
pub open spec fn pow256(n: nat) -> nat
    decreases n,
{
    if n == 0 {
        1
    } else {
        256 * pow256((n - 1) as nat)
    }
}

/// The number that `s` stands for when its first byte is the least significant.
pub open spec fn le_value(s: Seq<u8>) -> nat
    decreases s.len(),
{
    if s.len() == 0 {
        0
    } else {
        s[0] as nat + 256 * le_value(s.skip(1))
    }
}

/// The number that `s` stands for when its first byte is the most significant.
pub open spec fn be_value(s: Seq<u8>) -> nat
    decreases s.len(),
{
    if s.len() == 0 {
        0
    } else {
        256 * be_value(s.drop_last()) + s.last() as nat
    }
}

/// The `n` low bytes of `x`, least significant first.
pub open spec fn le_bytes(x: nat, n: nat) -> Seq<u8>
    decreases n,
{
    if n == 0 {
        Seq::empty()
    } else {
        seq![(x % 256) as u8] + le_bytes(x / 256, (n - 1) as nat)
    }
}

/// The `n` low bytes of `x`, most significant first.
pub open spec fn be_bytes(x: nat, n: nat) -> Seq<u8>
    decreases n,
{
    if n == 0 {
        Seq::empty()
    } else {
        be_bytes(x / 256, (n - 1) as nat).push((x % 256) as u8)
    }
}

pub proof fn lemma_pow256_values()
    ensures
        pow256(0) == 1,
        pow256(1) == 0x100,
        pow256(2) == 0x1_0000,
        pow256(4) == 0x1_0000_0000,
        pow256(8) == 0x1_0000_0000_0000_0000,
        pow256(16) == 0x1_0000_0000_0000_0000_0000_0000_0000_0000,
{
    reveal_with_fuel(pow256, 17);
}

pub proof fn lemma_pow256_monotonic(a: nat, b: nat)
    requires
        a <= b,
    ensures
        0 < pow256(a) <= pow256(b),
    decreases b,
{
    if b == 0 {
    } else if a == b {
        lemma_pow256_monotonic((a - 1) as nat, (b - 1) as nat);
    } else {
        lemma_pow256_monotonic(a, (b - 1) as nat);
    }
}

pub proof fn lemma_le_bytes_len(x: nat, n: nat)
    ensures
        le_bytes(x, n).len() == n,
    decreases n,
{
    if n > 0 {
        lemma_le_bytes_len(x / 256, (n - 1) as nat);
    }
}

pub proof fn lemma_be_bytes_len(x: nat, n: nat)
    ensures
        be_bytes(x, n).len() == n,
    decreases n,
{
    if n > 0 {
        lemma_be_bytes_len(x / 256, (n - 1) as nat);
    }
}

pub proof fn lemma_le_value_bound(s: Seq<u8>)
    ensures
        le_value(s) < pow256(s.len()),
    decreases s.len(),
{
    if s.len() > 0 {
        lemma_le_value_bound(s.skip(1));
    }
}

pub proof fn lemma_be_value_bound(s: Seq<u8>)
    ensures
        be_value(s) < pow256(s.len()),
    decreases s.len(),
{
    if s.len() > 0 {
        lemma_be_value_bound(s.drop_last());
    }
}

/// Writing a number that fits and reading it back gives the number.
pub proof fn lemma_le_value_of_bytes(x: nat, n: nat)
    requires
        x < pow256(n),
    ensures
        le_value(le_bytes(x, n)) == x,
    decreases n,
{
    if n > 0 {
        let rest = le_bytes(x / 256, (n - 1) as nat);
        lemma_le_value_of_bytes(x / 256, (n - 1) as nat);
        assert(le_bytes(x, n).skip(1) =~= rest);
    }
}

/// The little-endian bytes of the number that a byte string stands for are
/// that byte string.
pub proof fn lemma_le_bytes_of_value(s: Seq<u8>)
    ensures
        le_bytes(le_value(s), s.len()) == s,
    decreases s.len(),
{
    if s.len() > 0 {
        lemma_le_bytes_of_value(s.skip(1));
        let x = le_value(s);
        assert(x % 256 == s[0] as nat);
        assert(x / 256 == le_value(s.skip(1)));
        assert(le_bytes(x, s.len()) =~= s);
    } else {
        assert(le_bytes(le_value(s), 0) =~= s);
    }
}

pub proof fn lemma_be_value_of_bytes(x: nat, n: nat)
    requires
        x < pow256(n),
    ensures
        be_value(be_bytes(x, n)) == x,
    decreases n,
{
    if n > 0 {
        let rest = be_bytes(x / 256, (n - 1) as nat);
        lemma_be_value_of_bytes(x / 256, (n - 1) as nat);
        assert(be_bytes(x, n).drop_last() =~= rest);
    }
}

pub proof fn lemma_be_bytes_of_value(s: Seq<u8>)
    ensures
        be_bytes(be_value(s), s.len()) == s,
    decreases s.len(),
{
    if s.len() > 0 {
        lemma_be_bytes_of_value(s.drop_last());
        let x = be_value(s);
        assert(x % 256 == s.last() as nat);
        assert(x / 256 == be_value(s.drop_last()));
        assert(be_bytes(x, s.len()) =~= s);
    }
}

/// Two byte strings of one length that stand for the same big-endian number
/// are the same byte string.
pub proof fn lemma_be_value_injective(a: Seq<u8>, b: Seq<u8>)
    requires
        a.len() == b.len(),
        be_value(a) == be_value(b),
    ensures
        a == b,
{
    lemma_be_bytes_of_value(a);
    lemma_be_bytes_of_value(b);
}

/// The big-endian number of two byte strings written one after the other.
pub proof fn lemma_be_value_concat(a: Seq<u8>, b: Seq<u8>)
    ensures
        be_value(a + b) == be_value(a) * pow256(b.len()) + be_value(b),
    decreases b.len(),
{
    if b.len() == 0 {
        assert(a + b =~= a);
        assert(be_value(a) * 1 == be_value(a));
        assert(be_value(a) * pow256(b.len()) == be_value(a));
    } else {
        let front = b.drop_last();
        lemma_be_value_concat(a, front);
        assert((a + b).drop_last() =~= a + front);
        assert((a + b).last() == b.last());
        let x = be_value(a) as int;
        let w = pow256(front.len()) as int;
        assert(pow256(b.len()) == 256 * w);
        assert(256 * (x * w) == x * (256 * w)) by (nonlinear_arith);
        assert(be_value(a + b) == 256 * (x * w + be_value(front)) + b.last() as nat);
        assert(x * pow256(b.len()) == x * (256 * w));
        assert(be_value(b) == 256 * be_value(front) + b.last() as nat);
    }
}

/// Reads `width` bytes at `offset` as a little-endian number.
pub fn read_le(bytes: &[u8], offset: usize, width: usize) -> (value: u128)
    requires
        width <= 16,
        offset + width <= bytes@.len(),
    ensures
        value == le_value(bytes@.subrange(offset as int, offset + width)),
{
    let ghost end: int = offset + width;
    let total: usize = bytes.len();
    let mut acc: u128 = 0;
    let mut i: usize = width;
    while i > 0
        invariant
            i <= width <= 16,
            offset + width <= total == bytes@.len(),
            end == offset + width,
            acc == le_value(bytes@.subrange(offset + i, end)),
            acc < pow256((width - i) as nat),
        decreases i,
    {
        let b: u8 = bytes[offset + i - 1];
        proof {
            let cur = bytes@.subrange(offset + i - 1, end);
            assert(cur.skip(1) =~= bytes@.subrange(offset + i, end));
            assert(cur[0] == b);
            lemma_pow256_monotonic((width - i + 1) as nat, 16);
            lemma_pow256_values();
        }
        acc = acc * 256 + b as u128;
        i = i - 1;
    }
    acc
}

/// Reads `width` bytes at `offset` as a big-endian number.
pub fn read_be(bytes: &[u8], offset: usize, width: usize) -> (value: u128)
    requires
        width <= 16,
        offset + width <= bytes@.len(),
    ensures
        value == be_value(bytes@.subrange(offset as int, offset + width)),
{
    let total: usize = bytes.len();
    let mut acc: u128 = 0;
    let mut i: usize = 0;
    while i < width
        invariant
            i <= width <= 16,
            offset + width <= total == bytes@.len(),
            acc == be_value(bytes@.subrange(offset as int, offset + i)),
            acc < pow256(i as nat),
        decreases width - i,
    {
        let b: u8 = bytes[offset + i];
        proof {
            let cur = bytes@.subrange(offset as int, offset + i + 1);
            assert(cur.drop_last() =~= bytes@.subrange(offset as int, offset + i));
            assert(cur.last() == b);
            lemma_pow256_monotonic((i + 1) as nat, 16);
            lemma_pow256_values();
        }
        acc = acc * 256 + b as u128;
        i = i + 1;
    }
    acc
}

/// Appends the `width` low bytes of `value`, least significant first.
pub fn append_le(buf: &mut Vec<u8>, value: u128, width: usize)
    requires
        width <= 16,
    ensures
        final(buf)@ == old(buf)@ + le_bytes(value as nat, width as nat),
{
    let mut v: u128 = value;
    let mut i: usize = 0;
    while i < width
        invariant
            i <= width,
            old(buf)@ + le_bytes(value as nat, width as nat) == buf@ + le_bytes(
                v as nat,
                (width - i) as nat,
            ),
        decreases width - i,
    {
        let ghost before = buf@;
        let low: u8 = (v % 256) as u8;
        buf.push(low);
        proof {
            let rest = le_bytes((v / 256) as nat, (width - i - 1) as nat);
            assert(le_bytes(v as nat, (width - i) as nat) == seq![low] + rest);
            assert(before + (seq![low] + rest) =~= before.push(low) + rest);
        }
        v = v / 256;
        i = i + 1;
    }
    assert(buf@ + le_bytes(v as nat, 0) =~= buf@);
}

/// Appends the `width` low bytes of `value`, most significant first.
pub fn append_be(buf: &mut Vec<u8>, value: u128, width: usize)
    requires
        width <= 16,
    ensures
        final(buf)@ == old(buf)@ + be_bytes(value as nat, width as nat),
{
    let mut digits: Vec<u8> = Vec::new();
    let mut v: u128 = value;
    let mut i: usize = 0;
    proof {
        let whole = be_bytes(value as nat, width as nat);
        lemma_be_bytes_len(value as nat, width as nat);
        assert(whole.subrange(0, width as int) =~= whole);
    }
    while i < width
        invariant
            i <= width,
            digits@.len() == i,
            forall|k: int|
                0 <= k < i ==> be_bytes(value as nat, width as nat)[width - 1 - k] == digits@[k],
            be_bytes(value as nat, width as nat).subrange(0, width - i) == be_bytes(
                v as nat,
                (width - i) as nat,
            ),
        decreases width - i,
    {
        let low: u8 = (v % 256) as u8;
        proof {
            let whole = be_bytes(value as nat, width as nat);
            let head = be_bytes(v as nat, (width - i) as nat);
            lemma_be_bytes_len(value as nat, width as nat);
            lemma_be_bytes_len((v / 256) as nat, (width - i - 1) as nat);
            assert(head == be_bytes((v / 256) as nat, (width - i - 1) as nat).push(low));
            assert(whole[width - 1 - i] == head[width - 1 - i]);
            assert(whole.subrange(0, width - i - 1) =~= head.drop_last());
        }
        digits.push(low);
        v = v / 256;
        i = i + 1;
    }
    let ghost start = buf@;
    let mut j: usize = width;
    while j > 0
        invariant
            j <= width,
            digits@.len() == width,
            forall|k: int|
                0 <= k < width ==> be_bytes(value as nat, width as nat)[width - 1 - k] == digits@[k],
            buf@ == start + be_bytes(value as nat, width as nat).subrange(0, width - j),
        decreases j,
    {
        let ghost before = buf@;
        let d: u8 = digits[j - 1];
        buf.push(d);
        proof {
            let whole = be_bytes(value as nat, width as nat);
            lemma_be_bytes_len(value as nat, width as nat);
            assert(whole[width - j] == d);
            assert(before.push(d) =~= start + whole.subrange(0, width - j + 1));
        }
        j = j - 1;
    }
    proof {
        let whole = be_bytes(value as nat, width as nat);
        lemma_be_bytes_len(value as nat, width as nat);
        assert(whole.subrange(0, width as int) =~= whole);
    }
}

/// `n` zero bytes.
pub open spec fn zeros(n: nat) -> Seq<u8> {
    Seq::new(n, |i: int| 0u8)
}

/// Zero bytes stand for zero.
pub proof fn lemma_zeros_value(n: nat)
    ensures
        be_value(zeros(n)) == 0,
    decreases n,
{
    if n > 0 {
        assert(zeros(n).drop_last() =~= zeros((n - 1) as nat));
        lemma_zeros_value((n - 1) as nat);
    }
}

/// Appends `n` zero bytes.
pub fn append_zeros(buf: &mut Vec<u8>, n: usize)
    ensures
        final(buf)@ == old(buf)@ + zeros(n as nat),
{
    let mut i: usize = 0;
    while i < n
        invariant
            i <= n,
            buf@ == old(buf)@ + zeros(i as nat),
        decreases n - i,
    {
        let ghost before = buf@;
        buf.push(0u8);
        assert(before.push(0u8) =~= old(buf)@ + zeros((i + 1) as nat));
        i = i + 1;
    }
}

/// Appends `value` as a word of 32 bytes, most significant byte first.
pub fn append_word(buf: &mut Vec<u8>, value: u128)
    ensures
        final(buf)@ == old(buf)@ + be_bytes(value as nat, 32),
{
    let ghost before = buf@;
    append_zeros(buf, 16);
    append_be(buf, value, 16);
    proof {
        let tail = be_bytes(value as nat, 16);
        let whole = zeros(16) + tail;
        lemma_be_bytes_len(value as nat, 16);
        lemma_pow256_values();
        lemma_be_value_of_bytes(value as nat, 16);
        lemma_be_value_concat(zeros(16), tail);
        lemma_zeros_value(16);
        lemma_be_bytes_of_value(whole);
        assert(buf@ =~= before + whole);
    }
}

/// Appends every byte of `data`.
pub fn append_bytes(buf: &mut Vec<u8>, data: &[u8])
    ensures
        final(buf)@ == old(buf)@ + data@,
{
    let mut i: usize = 0;
    while i < data.len()
        invariant
            i <= data@.len(),
            buf@ == old(buf)@ + data@.subrange(0, i as int),
        decreases data@.len() - i,
    {
        let ghost before = buf@;
        buf.push(data[i]);
        assert(before.push(data@[i as int]) =~= old(buf)@ + data@.subrange(0, i + 1));
        i = i + 1;
    }
    assert(data@.subrange(0, data@.len() as int) =~= data@);
}

/// The `len` bytes of `bytes` that start at `offset`, as an owned vector.
pub fn copy_range(bytes: &[u8], offset: usize, len: usize) -> (out: Vec<u8>)
    requires
        offset + len <= bytes@.len(),
    ensures
        out@ == bytes@.subrange(offset as int, offset + len),
{
    let total: usize = bytes.len();
    let mut out: Vec<u8> = Vec::new();
    let mut i: usize = 0;
    while i < len
        invariant
            i <= len,
            offset + len <= total == bytes@.len(),
            out@ == bytes@.subrange(offset as int, offset + i),
        decreases len - i,
    {
        let ghost before = out@;
        out.push(bytes[offset + i]);
        assert(before.push(bytes@[offset + i]) =~= bytes@.subrange(offset as int, offset + i + 1));
        i = i + 1;
    }
    out
}

/// 32 zero bytes.
pub fn zero_word() -> (word: [u8; 32])
    ensures
        word@ == Seq::new(32, |i: int| 0u8),
        word == array32(Seq::new(32, |i: int| 0u8)),
{
    let word: [u8; 32] = [
        0u8, 0u8, 0u8, 0u8, 0u8, 0u8, 0u8, 0u8, 0u8, 0u8, 0u8, 0u8, 0u8, 0u8, 0u8, 0u8,
        0u8, 0u8, 0u8, 0u8, 0u8, 0u8, 0u8, 0u8, 0u8, 0u8, 0u8, 0u8, 0u8, 0u8, 0u8, 0u8,
    ];
    assert(word@ =~= Seq::new(32, |i: int| 0u8));
    proof {
        lemma_array32_of_view(word);
    }
    word
}

/// The array that holds the 32 bytes of `s`.
pub open spec fn array32(s: Seq<u8>) -> [u8; 32] {
    choose|a: [u8; 32]| a@ == s
}

/// An array is the array of its own bytes.
pub proof fn lemma_array32_of_view(a: [u8; 32])
    ensures
        array32(a@) == a,
{
    let b = array32(a@);
    assert(b@ == a@);
    assert(b =~= a);
}

/// The array of 32 zero bytes holds 32 zero bytes, which stand for zero.
pub proof fn lemma_array32_zeros()
    ensures
        array32(zeros(32))@ == zeros(32),
        be_value(array32(zeros(32))@) == 0,
{
    let word: [u8; 32] = [
        0u8, 0u8, 0u8, 0u8, 0u8, 0u8, 0u8, 0u8, 0u8, 0u8, 0u8, 0u8, 0u8, 0u8, 0u8, 0u8,
        0u8, 0u8, 0u8, 0u8, 0u8, 0u8, 0u8, 0u8, 0u8, 0u8, 0u8, 0u8, 0u8, 0u8, 0u8, 0u8,
    ];
    assert(word@ =~= zeros(32));
    lemma_array32_of_view(word);
    lemma_zeros_value(32);
}

/// The 32 bytes of `bytes` that start at `offset`.
pub fn read_array32(bytes: &[u8], offset: usize) -> (out: [u8; 32])
    requires
        offset + 32 <= bytes@.len(),
    ensures
        out@ == bytes@.subrange(offset as int, offset + 32),
        out == array32(bytes@.subrange(offset as int, offset + 32)),
{
    let total: usize = bytes.len();
    let mut out: [u8; 32] = [0u8; 32];
    let mut i: usize = 0;
    while i < 32
        invariant
            i <= 32,
            offset + 32 <= total == bytes@.len(),
            forall|k: int| 0 <= k < i ==> out@[k] == bytes@[offset + k],
        decreases 32 - i,
    {
        out[i] = bytes[offset + i];
        i = i + 1;
    }
    assert(out@ =~= bytes@.subrange(offset as int, offset + 32));
    proof {
        lemma_array32_of_view(out);
    }
    out
}

/// Whether two 32-byte arrays hold the same bytes.
pub fn array32_eq(a: &[u8; 32], b: &[u8; 32]) -> (same: bool)
    ensures
        same == (a@ == b@),
{
    let mut i: usize = 0;
    while i < 32
        invariant
            i <= 32,
            forall|k: int| 0 <= k < i ==> a@[k] == b@[k],
        decreases 32 - i,
    {
        if a[i] != b[i] {
            return false;
        }
        i = i + 1;
    }
    assert(a@ =~= b@);
    true
}

} // verus!
