//! Deterministic byte-stream primitives backing the in-memory module handles:
//! a rotate-xor state permutation, an absorbing accumulator over byte input,
//! a keystream expander, and exact-width xor of byte sequences. These model
//! the module's internal key derivation; they make every derived value a
//! mathematical function of its inputs, which is what the capability
//! contracts are stated over.

use vstd::prelude::*;

verus! {

/// Constant folded into the state on every permutation step.
pub const STEP_TWEAK: u64 = 0xA5A5_5A5A_C3C3_3C3C;

/// One step of the state permutation: rotate left by seven, then fold in the tweak.
pub open spec fn step(s: u64) -> u64 {
    ((s << 7) | (s >> 57)) ^ STEP_TWEAK
}

pub fn step_state(s: u64) -> (r: u64)
    ensures
        r == step(s),
{
    ((s << 7) | (s >> 57)) ^ STEP_TWEAK
}

/// Absorb one byte into the accumulator.
pub open spec fn absorb(s: u64, b: u8) -> u64 {
    step(s) ^ (b as u64)
}

/// Absorb a byte sequence into the accumulator, left to right.
pub open spec fn absorb_bytes(s: u64, data: Seq<u8>) -> u64
    decreases data.len(),
{
    if data.len() == 0 {
        s
    } else {
        absorb(absorb_bytes(s, data.drop_last()), data.last())
    }
}

pub fn absorb_slice(seed: u64, data: &[u8]) -> (r: u64)
    ensures
        r == absorb_bytes(seed, data@),
{
    let mut acc = seed;
    let mut i: usize = 0;
    while i < data.len()
        invariant
            i <= data@.len(),
            acc == absorb_bytes(seed, data@.subrange(0, i as int)),
        decreases data@.len() - i,
    {
        let b = data[i];
        proof {
            assert(data@.subrange(0, i + 1).drop_last() =~= data@.subrange(0, i as int));
            assert(data@.subrange(0, i + 1).last() == data@[i as int]);
        }
        acc = step_state(acc) ^ (b as u64);
        i = i + 1;
    }
    proof {
        assert(data@.subrange(0, data@.len() as int) =~= data@);
    }
    acc
}

/// The accumulator state after `i` permutation steps from `seed`.
pub open spec fn stream_state(seed: u64, i: nat) -> u64
    decreases i,
{
    if i == 0 {
        seed
    } else {
        step(stream_state(seed, (i - 1) as nat))
    }
}

pub fn advance_state(seed: u64, n: usize) -> (r: u64)
    ensures
        r == stream_state(seed, n as nat),
{
    let mut s = seed;
    let mut i: usize = 0;
    while i < n
        invariant
            i <= n,
            s == stream_state(seed, i as nat),
        decreases n - i,
    {
        s = step_state(s);
        i = i + 1;
    }
    s
}

/// The first `n` bytes of keystream expanded from `seed`.
pub open spec fn keystream(seed: u64, n: nat) -> Seq<u8> {
    Seq::new(n, |i: int| (stream_state(seed, i as nat) & 0xff) as u8)
}

pub fn keystream_bytes(seed: u64, n: usize) -> (out: Vec<u8>)
    ensures
        out@ == keystream(seed, n as nat),
{
    let mut out: Vec<u8> = Vec::new();
    let mut s = seed;
    let mut i: usize = 0;
    while i < n
        invariant
            i <= n,
            out@.len() == i,
            s == stream_state(seed, i as nat),
            forall|j: int|
                0 <= j < i ==> out@[j] == (stream_state(seed, j as nat) & 0xff) as u8,
        decreases n - i,
    {
        out.push((s & 0xff) as u8);
        s = step_state(s);
        i = i + 1;
    }
    proof {
        assert(out@ =~= keystream(seed, n as nat));
    }
    out
}

/// Pointwise xor of `a` against `k`; meaningful when the lengths agree.
pub open spec fn xor_bytes(a: Seq<u8>, k: Seq<u8>) -> Seq<u8>
    recommends
        a.len() == k.len(),
{
    Seq::new(a.len(), |i: int| a[i] ^ k[i])
}

pub fn xor_with(data: &[u8], key: &Vec<u8>) -> (out: Vec<u8>)
    requires
        data@.len() == key@.len(),
    ensures
        out@ == xor_bytes(data@, key@),
{
    let mut out: Vec<u8> = Vec::new();
    let mut i: usize = 0;
    while i < data.len()
        invariant
            i <= data@.len(),
            data@.len() == key@.len(),
            out@.len() == i,
            forall|j: int| 0 <= j < i ==> out@[j] == (data@[j] ^ key@[j]),
        decreases data@.len() - i,
    {
        out.push(data[i] ^ key[i]);
        i = i + 1;
    }
    proof {
        assert(out@ =~= xor_bytes(data@, key@));
    }
    out
}

/// Masking twice with the same keystream gives the original bytes back.
pub proof fn lemma_xor_involutive(a: Seq<u8>, k: Seq<u8>)
    requires
        a.len() == k.len(),
    ensures
        xor_bytes(xor_bytes(a, k), k) == a,
{
    assert forall|i: int| 0 <= i < a.len() implies xor_bytes(xor_bytes(a, k), k)[i] == a[i] by {
        let x = a[i];
        let y = k[i];
        assert((x ^ y) ^ y == x) by (bit_vector);
    }
    assert(xor_bytes(xor_bytes(a, k), k) =~= a);
}

/// Exact byte-sequence comparison.
pub fn bytes_eq(a: &[u8], b: &[u8]) -> (r: bool)
    ensures
        r == (a@ == b@),
{
    if a.len() != b.len() {
        proof {
            assert(a@.len() != b@.len());
        }
        return false;
    }
    let mut i: usize = 0;
    while i < a.len()
        invariant
            i <= a@.len(),
            a@.len() == b@.len(),
            forall|j: int| 0 <= j < i ==> a@[j] == b@[j],
        decreases a@.len() - i,
    {
        if a[i] != b[i] {
            return false;
        }
        i = i + 1;
    }
    proof {
        assert(a@ =~= b@);
    }
    true
}

} // verus!
