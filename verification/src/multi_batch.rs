//! Multi-batch payload codec.
//!
//! Every state-machine operation wraps its homogeneous element array in a
//! trailer that carries batch metadata while keeping the whole body aligned
//! to the element size. The trailer is written at the end of the buffer,
//! growing toward the payload:
//!
//! - last 2 bytes: `batch_count` (little-endian `u16`);
//! - the 2 bytes before, for each batch in reverse order: `element_count`;
//! - before that: padding bytes of `0xFF` up to a multiple of `element_size`.

use vstd::prelude::*;
use vstd::bytes::*;

verus! {

/// Size in bytes of the whole trailer: the unpadded metadata
/// (`2 * batch_count + 2`), rounded up to a multiple of `element_size`
/// when `element_size` is not zero.
pub open spec fn spec_trailer_total_size(element_size: int, batch_count: int) -> int {
    let unpadded = 2 * batch_count + 2;
    if element_size == 0 {
        unpadded
    } else {
        ((unpadded + element_size - 1) / element_size) * element_size
    }
}

/// The body that `encode` produces for a single batch: the payload, then
/// `0xFF` padding, then the element count and the batch count (one batch).
pub open spec fn spec_encode(events: Seq<u8>, element_size: int) -> Seq<u8> {
    let trailer = spec_trailer_total_size(element_size, 1);
    let element_count = if element_size == 0 { 0 } else { events.len() as int / element_size };
    events + Seq::new((trailer - 4) as nat, |i: int| 0xFFu8)
        + spec_u16_to_le_bytes(element_count as u16) + spec_u16_to_le_bytes(1u16)
}

/// What `decode` returns: the payload with the trailer stripped, or the
/// empty sequence when the buffer is too short, or the recorded batch count
/// is zero, or the buffer is smaller than the trailer it advertises.
pub open spec fn spec_decode(data: Seq<u8>, element_size: int) -> Seq<u8> {
    if data.len() < 2 {
        Seq::empty()
    } else {
        let batch_count = spec_u16_from_le_bytes(data.subrange(data.len() - 2, data.len() as int));
        if batch_count == 0 {
            Seq::empty()
        } else {
            let trailer = spec_trailer_total_size(element_size, batch_count as int);
            if data.len() < trailer {
                Seq::empty()
            } else {
                data.subrange(0, data.len() - trailer)
            }
        }
    }
}

/// Calculate the trailer size for a batch count and element size.
pub fn trailer_total_size(element_size: u32, batch_count: u16) -> (r: u32)
    requires
        batch_count >= 1,
    ensures
        r == spec_trailer_total_size(element_size as int, batch_count as int),
        r >= 4,
        element_size > 0 ==> r % element_size == 0 && r >= element_size,
{
    let unpadded: u32 = (batch_count as u32) * 2 + 2;
    if element_size == 0 {
        return unpadded;
    }
    let q: u32 = unpadded / element_size;
    let rem: u32 = unpadded % element_size;
    let ceil: u32 = if rem == 0 { q } else { q + 1 };
    proof {
        let u = unpadded as int;
        let d = element_size as int;
        let c = ceil as int;
        assert((u + d - 1) / d == if u % d == 0 { u / d } else { u / d + 1 }) by (nonlinear_arith)
            requires u >= 4 && d >= 1;
        assert(c == (u + d - 1) / d);
        assert(c >= 1 && c * d >= u && c * d <= u + d - 1 && (c * d) % d == 0) by (nonlinear_arith)
            requires u >= 4 && d >= 1 && c == (u + d - 1) / d;
        assert(c * d <= u32::MAX) by (nonlinear_arith)
            requires u >= 4 && d >= 1 && d <= u32::MAX && c * d <= u + d - 1 && u <= 0x2_0002;
        assert(c * d >= d) by (nonlinear_arith) requires c >= 1 && d >= 1;
        assert(c * d == spec_trailer_total_size(d, batch_count as int));
    }
    let r: u32 = ceil * element_size;
    proof {
        assert(r as int % element_size as int == (ceil as int * element_size as int) % element_size as int);
    }
    r
}

/// Encode a homogeneous element array as a single batch into the front of
/// `buffer`, and return the total encoded size (payload plus trailer).
/// Bytes of `buffer` beyond that size are left as they were.
pub fn encode(buffer: &mut Vec<u8>, events: &[u8], element_size: u32) -> (total: u32)
    requires
        element_size > 0 ==> events@.len() as int / element_size as int <= u16::MAX,
        events@.len() + spec_trailer_total_size(element_size as int, 1) <= old(buffer)@.len(),
        old(buffer)@.len() <= u32::MAX,
    ensures
        total == events@.len() + spec_trailer_total_size(element_size as int, 1),
        final(buffer)@.len() == old(buffer)@.len(),
        final(buffer)@.subrange(0, total as int) == spec_encode(events@, element_size as int),
        final(buffer)@.subrange(total as int, final(buffer)@.len() as int)
            == old(buffer)@.subrange(total as int, old(buffer)@.len() as int),
{
    proof {
        lemma_auto_spec_u16_to_from_le_bytes();
    }
    let events_len: u32 = events.len() as u32;
    let element_count: u16 = if element_size == 0 { 0 } else { (events_len / element_size) as u16 };
    let trailer_size: u32 = trailer_total_size(element_size, 1);
    let total: u32 = events_len + trailer_size;

    // Copy the payload to the front.
    let mut i: usize = 0;
    while i < events.len()
        invariant
            i <= events@.len(),
            buffer@.len() == old(buffer)@.len(),
            events@.len() + trailer_size <= buffer@.len(),
            buffer@.subrange(0, i as int) == events@.subrange(0, i as int),
            buffer@.subrange(events@.len() + trailer_size, buffer@.len() as int)
                == old(buffer)@.subrange(events@.len() + trailer_size, buffer@.len() as int),
        decreases events@.len() - i,
    {
        let b = *vstd::slice::slice_index_get(events, i);
        buffer.set(i, b);
        proof {
            assert(buffer@.subrange(0, i + 1) =~= events@.subrange(0, i + 1));
            assert(buffer@.subrange(events@.len() + trailer_size, buffer@.len() as int)
                =~= old(buffer)@.subrange(events@.len() + trailer_size, buffer@.len() as int));
        }
        i = i + 1;
    }

    // Fill the trailer with 0xFF padding.
    let mut j: usize = events_len as usize;
    while j < total as usize
        invariant
            events_len <= j <= total,
            total == events_len + trailer_size,
            events_len == events@.len(),
            buffer@.len() == old(buffer)@.len(),
            total <= buffer@.len(),
            buffer@.subrange(0, events@.len() as int) == events@,
            forall|k: int| events_len <= k < j ==> buffer@[k] == 0xFFu8,
            buffer@.subrange(total as int, buffer@.len() as int)
                == old(buffer)@.subrange(total as int, buffer@.len() as int),
        decreases total - j,
    {
        buffer.set(j, 0xFF);
        proof {
            assert(buffer@.subrange(0, events@.len() as int) =~= events@);
            assert(buffer@.subrange(total as int, buffer@.len() as int)
                =~= old(buffer)@.subrange(total as int, buffer@.len() as int));
        }
        j = j + 1;
    }

    // Write the batch count in the last two bytes and the element count in
    // the two bytes before it.
    let batch_count_bytes = u16_to_le_bytes(1u16);
    let element_count_bytes = u16_to_le_bytes(element_count);
    buffer.set((total - 4) as usize, element_count_bytes[0]);
    buffer.set((total - 3) as usize, element_count_bytes[1]);
    buffer.set((total - 2) as usize, batch_count_bytes[0]);
    buffer.set((total - 1) as usize, batch_count_bytes[1]);

    proof {
        assert(element_size > 0 ==> element_count == events@.len() as int / element_size as int);
        assert(buffer@.subrange(0, total as int) =~= spec_encode(events@, element_size as int));
        assert(buffer@.subrange(total as int, buffer@.len() as int)
            =~= old(buffer)@.subrange(total as int, old(buffer)@.len() as int));
    }
    total
}

/// Decode a multi-batch body: strip the trailer and return the payload.
/// A malformed body (too short, zero batch count, or shorter than the
/// trailer it advertises) decodes to the empty payload.
pub fn decode<'a>(data: &'a [u8], element_size: u32) -> (r: &'a [u8])
    ensures
        r@ == spec_decode(data@, element_size as int),
{
    proof {
        lemma_auto_spec_u16_to_from_le_bytes();
    }
    let data_len: usize = data.len();
    if data_len < 2 {
        return vstd::slice::slice_subrange(data, 0, 0);
    }
    let tail = vstd::slice::slice_subrange(data, data_len - 2, data_len);
    let batch_count: u16 = u16_from_le_bytes(tail);
    if batch_count == 0 {
        return vstd::slice::slice_subrange(data, 0, 0);
    }
    let trailer_size: u32 = trailer_total_size(element_size, batch_count);
    if (data_len as u64) < (trailer_size as u64) {
        return vstd::slice::slice_subrange(data, 0, 0);
    }
    vstd::slice::slice_subrange(data, 0, data_len - trailer_size as usize)
}

/// Stripping the trailer undoes the encoding: decoding an encoded single
/// batch gives back exactly the payload.
pub proof fn lemma_decode_encode(events: Seq<u8>, element_size: int)
    requires
        element_size > 0,
        events.len() as int / element_size <= u16::MAX,
    ensures
        spec_decode(spec_encode(events, element_size), element_size) == events,
{
    lemma_auto_spec_u16_to_from_le_bytes();
    let enc = spec_encode(events, element_size);
    let trailer = spec_trailer_total_size(element_size, 1);
    assert(trailer >= 4 && trailer % element_size == 0) by {
        lemma_trailer_bounds(element_size, 1);
    }
    assert(enc.len() == events.len() + trailer);
    assert(enc.subrange(enc.len() - 2, enc.len() as int) =~= spec_u16_to_le_bytes(1u16));
    assert(spec_u16_from_le_bytes(enc.subrange(enc.len() - 2, enc.len() as int)) == 1u16);
    assert(enc.subrange(0, enc.len() - trailer) =~= events);
}

/// Bounds on the trailer size: it is at least four bytes, and with a
/// positive element size it is a positive multiple of the element size.
pub proof fn lemma_trailer_bounds(element_size: int, batch_count: int)
    requires
        batch_count >= 1,
        element_size >= 0,
    ensures
        spec_trailer_total_size(element_size, batch_count) >= 2 * batch_count + 2,
        element_size > 0 ==> spec_trailer_total_size(element_size, batch_count) % element_size == 0,
{
    let u = 2 * batch_count + 2;
    if element_size > 0 {
        let d = element_size;
        assert(((u + d - 1) / d) * d >= u && (((u + d - 1) / d) * d) % d == 0) by (nonlinear_arith)
            requires u >= 4 && d >= 1;
    }
}

/// With a single batch the trailer is the four metadata bytes rounded up
/// to a whole number of elements.
pub proof fn lemma_trailer_single_batch(element_size: int)
    requires
        element_size > 0,
    ensures
        spec_trailer_total_size(element_size, 1)
            == ((4 + element_size - 1) / element_size) * element_size,
{
}

/// Every padding byte of an encoded batch — the trailer bytes before the
/// element count and batch count — is `0xFF`.
pub proof fn lemma_encode_padding(events: Seq<u8>, element_size: int)
    requires
        element_size > 0,
    ensures
        forall|i: int| events.len() <= i
            < events.len() + spec_trailer_total_size(element_size, 1) - 4
            ==> #[trigger] spec_encode(events, element_size)[i] == 0xFF,
{
    lemma_trailer_bounds(element_size, 1);
    let trailer = spec_trailer_total_size(element_size, 1);
    assert forall|i: int| events.len() <= i < events.len() + trailer - 4
        implies #[trigger] spec_encode(events, element_size)[i] == 0xFF by {
        let pad = Seq::new((trailer - 4) as nat, |k: int| 0xFFu8);
        assert(spec_encode(events, element_size)[i] == pad[i - events.len()]);
    }
}

/// A buffer shorter than the trailer its batch count advertises decodes
/// to the empty payload.
pub proof fn lemma_decode_short_buffer(data: Seq<u8>, element_size: int)
    requires
        data.len() >= 2,
        data.len() < spec_trailer_total_size(
            element_size,
            spec_u16_from_le_bytes(data.subrange(data.len() - 2, data.len() as int)) as int,
        ),
    ensures
        spec_decode(data, element_size) == Seq::<u8>::empty(),
{
}

} // verus!
