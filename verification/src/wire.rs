//! Byte-level building blocks of the wire format: fixed-width big-endian integers
//! and byte copying.
use vstd::prelude::*;

verus! {

/// `256` to the power `n`: how many distinct values `n` bytes can hold.
pub open spec fn byte_radix(n: nat) -> nat
    decreases n,
{
    if n == 0 {
        1
    } else {
        256 * byte_radix((n - 1) as nat)
    }
}

/// The `n` low-order bytes of `v`, most significant first.
pub open spec fn be_bytes(v: nat, n: nat) -> Seq<u8>
    decreases n,
{
    if n == 0 {
        Seq::empty()
    } else {
        be_bytes(v / 256, (n - 1) as nat).push((v % 256) as u8)
    }
}

/// The number that `bytes` spell, most significant byte first.
pub open spec fn be_value(bytes: Seq<u8>) -> nat
    decreases bytes.len(),
{
    if bytes.len() == 0 {
        0
    } else {
        be_value(bytes.drop_last()) * 256 + bytes.last() as nat
    }
}

pub proof fn lemma_byte_radix_positive(n: nat)
    ensures
        byte_radix(n) > 0,
    decreases n,
{
    if n > 0 {
        lemma_byte_radix_positive((n - 1) as nat);
    }
}

pub proof fn lemma_byte_radix_monotone(m: nat, n: nat)
    requires
        m <= n,
    ensures
        byte_radix(m) <= byte_radix(n),
    decreases n,
{
    if m < n {
        lemma_byte_radix_monotone(m, (n - 1) as nat);
        lemma_byte_radix_positive((n - 1) as nat);
    }
}

pub proof fn lemma_be_bytes_len(v: nat, n: nat)
    ensures
        be_bytes(v, n).len() == n,
    decreases n,
{
    if n > 0 {
        lemma_be_bytes_len(v / 256, (n - 1) as nat);
    }
}

/// What `n` bytes spell is below `256^n`.
pub proof fn lemma_be_value_bound(bytes: Seq<u8>)
    ensures
        be_value(bytes) < byte_radix(bytes.len()),
    decreases bytes.len(),
{
    if bytes.len() > 0 {
        let rest = bytes.drop_last();
        lemma_be_value_bound(rest);
        let high = be_value(rest);
        let r = byte_radix(rest.len());
        assert(high * 256 + (bytes.last() as nat) < 256 * r) by (nonlinear_arith)
            requires
                high < r,
                bytes.last() < 256,
        ;
    }
}

/// Reading back the `n` bytes written for `v` gives `v` modulo `256^n`.
pub proof fn lemma_be_bytes_value(v: nat, n: nat)
    ensures
        be_value(be_bytes(v, n)) == v % byte_radix(n),
    decreases n,
{
    if n == 0 {
        assert(v % 1 == 0) by (nonlinear_arith);
    } else {
        let m = (n - 1) as nat;
        let bytes = be_bytes(v, n);
        lemma_be_bytes_value(v / 256, m);
        assert(bytes.drop_last() =~= be_bytes(v / 256, m));
        lemma_byte_radix_positive(m);
        vstd::arithmetic::div_mod::lemma_mod_breakdown(v as int, 256, byte_radix(m) as int);
    }
}

/// Writing back the value that some bytes spell gives those bytes.
pub proof fn lemma_be_value_bytes(bytes: Seq<u8>)
    ensures
        be_bytes(be_value(bytes), bytes.len()) == bytes,
    decreases bytes.len(),
{
    if bytes.len() > 0 {
        let rest = bytes.drop_last();
        let v = be_value(bytes);
        vstd::arithmetic::div_mod::lemma_fundamental_div_mod_converse(
            v as int,
            256,
            be_value(rest) as int,
            bytes.last() as int,
        );
        lemma_be_value_bytes(rest);
        assert(bytes =~= rest.push(bytes.last()));
    }
}

/// Values below `256^n` come back whole.
pub proof fn lemma_be_bytes_value_small(v: nat, n: nat)
    requires
        v < byte_radix(n),
    ensures
        be_value(be_bytes(v, n)) == v,
{
    lemma_be_bytes_value(v, n);
    vstd::arithmetic::div_mod::lemma_small_mod(v, byte_radix(n));
}

/// Appends the `n` low-order bytes of `v` to `out`, most significant first.
pub fn push_be(out: &mut Vec<u8>, v: u128, n: usize)
    requires
        n <= 16,
    ensures
        final(out)@ == old(out)@ + be_bytes(v as nat, n as nat),
    decreases n,
{
    if n > 0 {
        push_be(out, v / 256, n - 1);
        out.push((v % 256) as u8);
        assert(out@ =~= old(out)@ + be_bytes(v as nat, n as nat));
    } else {
        assert(out@ =~= old(out)@ + be_bytes(v as nat, n as nat));
    }
}

/// The number that `bytes[start..start + n]` spells, most significant byte first.
pub fn be_decode(bytes: &[u8], start: usize, n: usize) -> (r: u128)
    requires
        n <= 16,
        start + n <= bytes.len(),
    ensures
        r as nat == be_value(bytes@.subrange(start as int, start + n)),
    decreases n,
{
    if n == 0 {
        0
    } else {
        let high = be_decode(bytes, start, n - 1);
        let ghost window = bytes@.subrange(start as int, start + n);
        proof {
            assert(window.drop_last() =~= bytes@.subrange(start as int, start + n - 1));
            lemma_be_value_bound(window.drop_last());
            lemma_byte_radix_monotone((n - 1) as nat, 15);
            reveal_with_fuel(byte_radix, 16);
            assert(byte_radix(15) == 0x1_0000_0000_0000_0000_0000_0000_0000_00u128);
        }
        let last = bytes[start + (n - 1)];
        high * 256 + last as u128
    }
}

/// Appends every byte of `src` to `out`, in order.
pub fn append_bytes(out: &mut Vec<u8>, src: &[u8])
    ensures
        final(out)@ == old(out)@ + src@,
{
    let n = src.len();
    let mut i: usize = 0;
    while i < n
        invariant
            n == src@.len(),
            i <= n,
            out@ == old(out)@ + src@.subrange(0, i as int),
        decreases n - i,
    {
        out.push(src[i]);
        i = i + 1;
        assert(out@ =~= old(out)@ + src@.subrange(0, i as int));
    }
    assert(src@.subrange(0, n as int) =~= src@);
}

} // verus!
