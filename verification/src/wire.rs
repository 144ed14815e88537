//! Little-endian field readers and writers used by every fixed-layout
//! record of the protocol.

use vstd::prelude::*;
use vstd::bytes::*;

verus! {

/// A run of `n` zero bytes.
pub open spec fn zeros(n: nat) -> Seq<u8> {
    Seq::new(n, |i: int| 0u8)
}

/// Append one byte.
pub fn put_u8(buf: &mut Vec<u8>, x: u8)
    ensures
        final(buf)@ == old(buf)@ + seq![x],
{
    buf.push(x);
    proof {
        assert(buf@ =~= old(buf)@ + seq![x]);
    }
}

/// Append a `u16` as two little-endian bytes.
pub fn put_u16(buf: &mut Vec<u8>, x: u16)
    ensures
        final(buf)@ == old(buf)@ + spec_u16_to_le_bytes(x),
{
    let bytes = u16_to_le_bytes(x);
    buf.extend_from_slice(bytes.as_slice());
}

/// Append a `u32` as four little-endian bytes.
pub fn put_u32(buf: &mut Vec<u8>, x: u32)
    ensures
        final(buf)@ == old(buf)@ + spec_u32_to_le_bytes(x),
{
    let bytes = u32_to_le_bytes(x);
    buf.extend_from_slice(bytes.as_slice());
}

/// Append a `u64` as eight little-endian bytes.
pub fn put_u64(buf: &mut Vec<u8>, x: u64)
    ensures
        final(buf)@ == old(buf)@ + spec_u64_to_le_bytes(x),
{
    let bytes = u64_to_le_bytes(x);
    buf.extend_from_slice(bytes.as_slice());
}

/// Append a `u128` as sixteen little-endian bytes.
pub fn put_u128(buf: &mut Vec<u8>, x: u128)
    ensures
        final(buf)@ == old(buf)@ + spec_u128_to_le_bytes(x),
{
    let bytes = u128_to_le_bytes(x);
    buf.extend_from_slice(bytes.as_slice());
}

/// Append a byte run.
pub fn put_bytes(buf: &mut Vec<u8>, bytes: &[u8])
    ensures
        final(buf)@ == old(buf)@ + bytes@,
{
    buf.extend_from_slice(bytes);
}

/// Append `n` zero bytes.
pub fn put_zeros(buf: &mut Vec<u8>, n: usize)
    requires
        old(buf)@.len() + n <= usize::MAX,
    ensures
        final(buf)@ == old(buf)@ + zeros(n as nat),
{
    let mut i: usize = 0;
    while i < n
        invariant
            i <= n,
            buf@ == old(buf)@ + zeros(i as nat),
            buf@.len() == old(buf)@.len() + i,
        decreases n - i,
    {
        buf.push(0u8);
        proof {
            assert(buf@ =~= old(buf)@ + zeros((i + 1) as nat));
        }
        i = i + 1;
    }
}

/// Read one byte at `i`.
pub fn get_u8(s: &[u8], i: usize) -> (r: u8)
    requires
        i < s@.len(),
    ensures
        r == s@[i as int],
{
    *vstd::slice::slice_index_get(s, i)
}

/// Read a little-endian `u16` at `i`.
pub fn get_u16(s: &[u8], i: usize) -> (r: u16)
    requires
        i + 2 <= s@.len(),
    ensures
        r == spec_u16_from_le_bytes(s@.subrange(i as int, i + 2)),
{
    // Reading the slice length bounds `i + 2` within `usize`.
    let _bound: usize = s.len();
    u16_from_le_bytes(vstd::slice::slice_subrange(s, i, i + 2))
}

/// Read a little-endian `u32` at `i`.
pub fn get_u32(s: &[u8], i: usize) -> (r: u32)
    requires
        i + 4 <= s@.len(),
    ensures
        r == spec_u32_from_le_bytes(s@.subrange(i as int, i + 4)),
{
    // Reading the slice length bounds `i + 4` within `usize`.
    let _bound: usize = s.len();
    u32_from_le_bytes(vstd::slice::slice_subrange(s, i, i + 4))
}

/// Read a little-endian `u64` at `i`.
pub fn get_u64(s: &[u8], i: usize) -> (r: u64)
    requires
        i + 8 <= s@.len(),
    ensures
        r == spec_u64_from_le_bytes(s@.subrange(i as int, i + 8)),
{
    // Reading the slice length bounds `i + 8` within `usize`.
    let _bound: usize = s.len();
    u64_from_le_bytes(vstd::slice::slice_subrange(s, i, i + 8))
}

/// Read a little-endian `u128` at `i`.
pub fn get_u128(s: &[u8], i: usize) -> (r: u128)
    requires
        i + 16 <= s@.len(),
    ensures
        r == spec_u128_from_le_bytes(s@.subrange(i as int, i + 16)),
{
    // Reading the slice length bounds `i + 16` within `usize`.
    let _bound: usize = s.len();
    u128_from_le_bytes(vstd::slice::slice_subrange(s, i, i + 16))
}

/// Copy out the `n` bytes at `i`.
pub fn get_bytes(s: &[u8], i: usize, n: usize) -> (r: Vec<u8>)
    requires
        i + n <= s@.len(),
    ensures
        r@ == s@.subrange(i as int, i + n),
{
    // Reading the slice length bounds `i + n` within `usize`.
    let _bound: usize = s.len();
    vstd::slice::slice_to_vec(vstd::slice::slice_subrange(s, i, i + n))
}

/// The facts about little-endian encodings that the layout proofs lean on:
/// each width's encoding is of fixed length and inverts its decoding.
pub proof fn le_facts()
    ensures
        forall|x: u16| (#[trigger] spec_u16_to_le_bytes(x)).len() == 2
            && spec_u16_from_le_bytes(spec_u16_to_le_bytes(x)) == x,
        forall|s: Seq<u8>| s.len() == 2
            ==> #[trigger] spec_u16_to_le_bytes(spec_u16_from_le_bytes(s)) == s,
        forall|x: u32| (#[trigger] spec_u32_to_le_bytes(x)).len() == 4
            && spec_u32_from_le_bytes(spec_u32_to_le_bytes(x)) == x,
        forall|s: Seq<u8>| s.len() == 4
            ==> #[trigger] spec_u32_to_le_bytes(spec_u32_from_le_bytes(s)) == s,
        forall|x: u64| (#[trigger] spec_u64_to_le_bytes(x)).len() == 8
            && spec_u64_from_le_bytes(spec_u64_to_le_bytes(x)) == x,
        forall|s: Seq<u8>| s.len() == 8
            ==> #[trigger] spec_u64_to_le_bytes(spec_u64_from_le_bytes(s)) == s,
        forall|x: u128| (#[trigger] spec_u128_to_le_bytes(x)).len() == 16
            && spec_u128_from_le_bytes(spec_u128_to_le_bytes(x)) == x,
        forall|s: Seq<u8>| s.len() == 16
            ==> #[trigger] spec_u128_to_le_bytes(spec_u128_from_le_bytes(s)) == s,
{
    lemma_auto_spec_u16_to_from_le_bytes();
    lemma_auto_spec_u32_to_from_le_bytes();
    lemma_auto_spec_u64_to_from_le_bytes();
    lemma_auto_spec_u128_to_from_le_bytes();
}

/// The concatenation of the encodings of the elements of `s`, in order.
pub open spec fn spec_concat_map<A>(s: Seq<A>, f: spec_fn(A) -> Seq<u8>) -> Seq<u8>
    decreases s.len(),
{
    if s.len() == 0 {
        Seq::empty()
    } else {
        f(s[0]) + spec_concat_map(s.drop_first(), f)
    }
}

/// Appending one element appends its encoding.
pub proof fn lemma_concat_map_push<A>(s: Seq<A>, f: spec_fn(A) -> Seq<u8>, x: A)
    ensures
        spec_concat_map(s.push(x), f) == spec_concat_map(s, f) + f(x),
    decreases s.len(),
{
    let t = s.push(x);
    if s.len() == 0 {
        assert(t.drop_first() =~= Seq::<A>::empty());
        assert(spec_concat_map(t.drop_first(), f) == Seq::<u8>::empty());
        assert(t[0] == x);
        assert(spec_concat_map(t, f) == f(x) + Seq::<u8>::empty());
        assert(spec_concat_map(s, f) == Seq::<u8>::empty());
        assert(f(x) + Seq::<u8>::empty() =~= Seq::<u8>::empty() + f(x));
    } else {
        assert(t.drop_first() =~= s.drop_first().push(x));
        lemma_concat_map_push(s.drop_first(), f, x);
        assert(t[0] == s[0]);
        assert(spec_concat_map(t, f) == f(s[0]) + (spec_concat_map(s.drop_first(), f) + f(x)));
        assert(spec_concat_map(s, f) == f(s[0]) + spec_concat_map(s.drop_first(), f));
        assert(f(s[0]) + (spec_concat_map(s.drop_first(), f) + f(x))
            =~= (f(s[0]) + spec_concat_map(s.drop_first(), f)) + f(x));
    }
}

/// When every element's encoding is the matching fixed-width chunk of
/// `data`, the concatenation of the encodings is `data` itself.
pub proof fn lemma_concat_map_of_chunks<A>(s: Seq<A>, f: spec_fn(A) -> Seq<u8>, data: Seq<u8>, w: int)
    requires
        w > 0,
        data.len() == w * s.len(),
        forall|i: int| 0 <= i < s.len() ==> f(s[i]) == data.subrange(w * i, w * (i + 1)),
    ensures
        spec_concat_map(s, f) == data,
    decreases s.len(),
{
    if s.len() == 0 {
        assert(data =~= Seq::<u8>::empty());
    } else {
        assert(w <= data.len()) by (nonlinear_arith)
            requires data.len() == w * s.len() && s.len() >= 1 && w > 0;
        let rest = data.skip(w);
        assert(f(s[0]) == data.subrange(w * 0, w * (0 + 1)));
        assert(data.subrange(0, w) + rest =~= data);
        assert(rest.len() == w * s.drop_first().len()) by (nonlinear_arith)
            requires rest.len() == data.len() - w && data.len() == w * s.len() && s.len() >= 1 && s.drop_first().len() == s.len() - 1;
        assert forall|i: int| 0 <= i < s.drop_first().len()
            implies f(s.drop_first()[i]) == rest.subrange(w * i, w * (i + 1)) by {
            assert(s.drop_first()[i] == s[i + 1]);
            assert(w * (i + 1) == w * i + w && w * (i + 2) == w * (i + 1) + w) by (nonlinear_arith);
            assert(0 <= w * i && w * (i + 1) + w <= data.len()) by (nonlinear_arith)
                requires data.len() == w * s.len() && w > 0 && 0 <= i < s.len() - 1;
            assert(f(s[i + 1]) == data.subrange(w * (i + 1), w * (i + 2)));
            assert(rest.subrange(w * i, w * (i + 1)) =~= data.subrange(w * (i + 1), w * (i + 2)));
        }
        lemma_concat_map_of_chunks(s.drop_first(), f, rest, w);
        assert(spec_concat_map(s, f) == f(s[0]) + spec_concat_map(s.drop_first(), f));
        assert(f(s[0]) == data.subrange(0, w)) by {
            assert(w * 0 == 0 && w * (0 + 1) == w) by (nonlinear_arith);
        }
        assert(spec_concat_map(s, f) == data.subrange(0, w) + rest);
        assert(spec_concat_map(s, f) =~= data);
    }
}

} // verus!
