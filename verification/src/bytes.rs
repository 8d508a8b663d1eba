//! Little-endian integers as byte sequences.

use vstd::prelude::*;

verus! {

/// `256` to the power `n`.
pub open spec fn pow256(n: nat) -> nat
    decreases n,
{
    if n == 0 {
        1
    } else {
        256 * pow256((n - 1) as nat)
    }
}

/// The number that `bytes` spell, least significant byte first.
pub open spec fn le_value(bytes: Seq<u8>) -> nat
    decreases bytes.len(),
{
    if bytes.len() == 0 {
        0
    } else {
        bytes[0] as nat + 256 * le_value(bytes.drop_first())
    }
}

/// The `width` least significant bytes of `value`, least significant first.
pub open spec fn le_bytes(value: nat, width: nat) -> Seq<u8>
    decreases width,
{
    if width == 0 {
        Seq::empty()
    } else {
        seq![(value % 256) as u8] + le_bytes(value / 256, (width - 1) as nat)
    }
}

/// `le_bytes` yields exactly `width` bytes.
pub proof fn lemma_le_bytes_len(value: nat, width: nat)
    ensures
        le_bytes(value, width).len() == width,
    decreases width,
{
    if width > 0 {
        lemma_le_bytes_len(value / 256, (width - 1) as nat);
    }
}

/// A byte sequence spells a number below `256` to the power of its length.
pub proof fn lemma_le_value_bound(bytes: Seq<u8>)
    ensures
        le_value(bytes) < pow256(bytes.len()),
    decreases bytes.len(),
{
    if bytes.len() > 0 {
        lemma_le_value_bound(bytes.drop_first());
    }
}

/// Encoding a number and reading the bytes back gives the number again,
/// reduced to the width that was written.
pub proof fn lemma_le_value_of_le_bytes(value: nat, width: nat)
    ensures
        le_value(le_bytes(value, width)) == value % pow256(width),
    decreases width,
{
    if width > 0 {
        let rest = le_bytes(value / 256, (width - 1) as nat);
        let all = le_bytes(value, width);
        lemma_le_value_of_le_bytes(value / 256, (width - 1) as nat);
        assert(all.drop_first() =~= rest);
        assert(all[0] == (value % 256) as u8);
        let p = pow256((width - 1) as nat);
        lemma_pow256_positive((width - 1) as nat);
        lemma_mod_split(value, p);
    }
}

/// Reading bytes and encoding the number at the same width gives the bytes
/// again.
pub proof fn lemma_le_bytes_of_le_value(bytes: Seq<u8>)
    ensures
        le_bytes(le_value(bytes), bytes.len()) == bytes,
    decreases bytes.len(),
{
    if bytes.len() > 0 {
        let rest = bytes.drop_first();
        lemma_le_bytes_of_le_value(rest);
        let v = le_value(bytes);
        assert(v % 256 == bytes[0] as nat);
        assert(v / 256 == le_value(rest));
        assert(le_bytes(v, bytes.len()) =~= bytes);
    } else {
        assert(le_bytes(le_value(bytes), bytes.len()) =~= bytes);
    }
}

/// A 64-bit number survives being written as eight bytes and read back.
pub proof fn lemma_u64_round_trip(value: u64)
    ensures
        le_bytes(value as nat, 8).len() == 8,
        le_value(le_bytes(value as nat, 8)) == value,
{
    lemma_le_bytes_len(value as nat, 8);
    lemma_le_value_of_le_bytes(value as nat, 8);
    lemma_pow256_eight();
}

pub proof fn lemma_pow256_positive(n: nat)
    ensures
        pow256(n) > 0,
    decreases n,
{
    if n > 0 {
        lemma_pow256_positive((n - 1) as nat);
    }
}

/// Eight bytes span exactly the 64-bit numbers.
pub proof fn lemma_pow256_eight()
    ensures
        pow256(8) == 0x1_0000_0000_0000_0000,
{
    assert(pow256(0) == 1);
    assert(pow256(1) == 0x100);
    assert(pow256(2) == 0x1_0000);
    assert(pow256(3) == 0x100_0000);
    assert(pow256(4) == 0x1_0000_0000);
    assert(pow256(5) == 0x100_0000_0000);
    assert(pow256(6) == 0x1_0000_0000_0000);
    assert(pow256(7) == 0x100_0000_0000_0000);
}

proof fn lemma_mod_split(value: nat, p: nat)
    requires
        p > 0,
    ensures
        value % 256 + 256 * ((value / 256) % p) == value % (256 * p),
{
    let q = value / 256;
    let r = value % 256;
    let qq = q / p;
    let qr = q % p;
    let d = 256 * p;
    let rem = 256 * qr + r;
    assert(q == p * qq + qr) by (nonlinear_arith)
        requires
            p > 0,
            qq == q / p,
            qr == q % p,
    ;
    assert(value == qq * d + rem) by (nonlinear_arith)
        requires
            value == 256 * q + r,
            q == p * qq + qr,
            d == 256 * p,
            rem == 256 * qr + r,
    ;
    assert(0 <= rem < d) by (nonlinear_arith)
        requires
            0 <= r < 256,
            0 <= qr < p,
            d == 256 * p,
            rem == 256 * qr + r,
    ;
    vstd::arithmetic::div_mod::lemma_fundamental_div_mod_converse(
        value as int,
        d as int,
        qq as int,
        rem as int,
    );
}

/// Reads the eight bytes that start at `start` as a little-endian number.
pub fn read_u64_le(bytes: &[u8], start: usize) -> (value: u64)
    requires
        start + 8 <= bytes@.len(),
    ensures
        value == le_value(bytes@.subrange(start as int, start + 8)),
{
    let len: usize = bytes.len();
    let mut value: u64 = 0;
    let mut k: usize = 8;
    proof {
        assert(bytes@.subrange(start + 8, start + 8) =~= Seq::<u8>::empty());
        lemma_pow256_eight();
    }
    while k > 0
        invariant
            k <= 8,
            start + 8 <= bytes@.len(),
            bytes@.len() == len,
            value == le_value(bytes@.subrange(start + k, start + 8)),
            bytes@.subrange(start + k, start + 8).len() == 8 - k,
        decreases k,
    {
        let ghost tail = bytes@.subrange(start + k, start + 8);
        k = k - 1;
        let ghost longer = bytes@.subrange(start + k, start + 8);
        proof {
            assert(longer.drop_first() =~= tail);
            lemma_le_value_bound(tail);
            lemma_le_value_bound(longer);
            lemma_pow256_eight();
            lemma_pow256_monotone(longer.len(), 8);
        }
        value = value * 256 + bytes[start + k] as u64;
    }
    value
}

/// Appends the eight little-endian bytes of `value` to `out`.
pub fn write_u64_le(value: u64, out: &mut Vec<u8>)
    ensures
        final(out)@ == old(out)@ + le_bytes(value as nat, 8),
{
    let mut rest: u64 = value;
    let mut written: usize = 0;
    while written < 8
        invariant
            written <= 8,
            old(out)@ + le_bytes(value as nat, 8) == out@ + le_bytes(rest as nat, (8 - written) as nat),
        decreases 8 - written,
    {
        let ghost before = out@;
        out.push((rest % 256) as u8);
        proof {
            let tail = le_bytes((rest / 256) as nat, (8 - written - 1) as nat);
            assert(le_bytes(rest as nat, (8 - written) as nat) == seq![(rest % 256) as u8] + tail);
            assert(before + (seq![(rest % 256) as u8] + tail) =~= out@ + tail);
        }
        rest = rest / 256;
        written = written + 1;
    }
    proof {
        assert(out@ + le_bytes(rest as nat, 0) =~= out@);
    }
}

proof fn lemma_pow256_monotone(a: nat, b: nat)
    requires
        a <= b,
    ensures
        pow256(a) <= pow256(b),
    decreases b,
{
    if a < b {
        lemma_pow256_monotone(a, (b - 1) as nat);
    }
}

} // verus!
