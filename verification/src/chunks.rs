//! Chunk arithmetic: which byte range of the payload a requested chunk
//! index names.
//!
//! The link carries at most [`CHUNK_SIZE`] payload bytes per data write,
//! so chunk `n` covers bytes `n * CHUNK_SIZE` up to the payload length.
//! An index whose start offset lies at or past the end of the payload
//! names no chunk and is never served.

use vstd::arithmetic::div_mod::lemma_fundamental_div_mod;
use vstd::arithmetic::mul::lemma_mul_inequality;
use vstd::prelude::*;

verus! {

/// Greatest number of payload bytes per data write, fixed by the link's
/// negotiated packet budget.
pub const CHUNK_SIZE: usize = 244;

/// First byte offset of the chunk with this index.
pub open spec fn chunk_start(index: nat) -> nat {
    index * (CHUNK_SIZE as nat)
}

/// One past the last byte offset of the chunk with this index, in a
/// payload of `len` bytes: a full chunk except that the payload end caps
/// it.
pub open spec fn chunk_end(index: nat, len: nat) -> nat {
    if chunk_start(index) + (CHUNK_SIZE as nat) <= len {
        chunk_start(index) + (CHUNK_SIZE as nat)
    } else {
        len
    }
}

/// Whether the chunk with this index holds any byte of a payload of
/// `len` bytes.
pub open spec fn chunk_in_range(index: nat, len: nat) -> bool {
    chunk_start(index) < len
}

/// The bytes served for a chunk request: the named slice of the payload,
/// or nothing when the index lies out of range.
pub open spec fn spec_chunk(payload: Seq<u8>, index: nat) -> Option<Seq<u8>> {
    if chunk_in_range(index, payload.len()) {
        Some(
            payload.subrange(
                chunk_start(index) as int,
                chunk_end(index, payload.len()) as int,
            ),
        )
    } else {
        None
    }
}

/// The index of the last chunk of a payload of `len > 0` bytes.
pub open spec fn last_chunk_index(len: nat) -> nat {
    ((len - 1) / (CHUNK_SIZE as int)) as nat
}

/// Compute the byte range `[start, end)` the requested index names, or
/// nothing when the index lies out of range.
pub fn chunk_range(index: u16, len: u32) -> (r: Option<(u32, u32)>)
    ensures
        r is Some <==> chunk_in_range(index as nat, len as nat),
        (r matches Some((s, e)) ==> s == chunk_start(index as nat) && e == chunk_end(
            index as nat,
            len as nat,
        )),
{
    let start: u32 = (index as u32) * 244;
    if start < len {
        let end: u32 = if len - start > 244 {
            start + 244
        } else {
            len
        };
        Some((start, end))
    } else {
        None
    }
}

/// Copy the bytes the requested index names out of the payload, or
/// return nothing when the index lies out of range.
pub fn chunk_bytes(payload: &Vec<u8>, index: u16) -> (r: Option<Vec<u8>>)
    requires
        payload@.len() <= u32::MAX,
    ensures
        r is Some <==> chunk_in_range(index as nat, payload@.len()),
        (r matches Some(c) ==> Some(c@) == spec_chunk(payload@, index as nat)),
{
    match chunk_range(index, payload.len() as u32) {
        Some((start, end)) => {
            proof {
                lemma_chunk_within_payload(index as nat, payload@.len());
            }
            let s: usize = start as usize;
            let e: usize = end as usize;
            let mut c: Vec<u8> = Vec::new();
            let mut i: usize = s;
            while i < e
                invariant
                    s == chunk_start(index as nat),
                    e == chunk_end(index as nat, payload@.len()),
                    s <= i <= e <= payload@.len(),
                    c@ =~= payload@.subrange(s as int, i as int),
                decreases e - i,
            {
                c.push(payload[i]);
                i += 1;
            }
            proof {
                assert(c@ =~= payload@.subrange(
                    chunk_start(index as nat) as int,
                    chunk_end(index as nat, payload@.len()) as int,
                ));
            }
            Some(c)
        },
        None => None,
    }
}

/// No overrun: a chunk is served only when its start offset lies strictly
/// inside the payload, and the served range then lies entirely within it.
pub proof fn lemma_chunk_within_payload(index: nat, len: nat)
    ensures
        chunk_in_range(index, len) ==> chunk_start(index) < len,
        chunk_in_range(index, len) ==> chunk_start(index) < chunk_end(index, len) <= len,
{
}

/// No gap: chunk 0 starts at offset zero, every chunk that does not reach
/// the payload end is full and abuts the next one, and the last in-range
/// chunk ends exactly at the payload length.
pub proof fn lemma_chunks_tile(len: nat)
    requires
        len > 0,
    ensures
        chunk_start(0) == 0,
        forall|i: nat|
            chunk_in_range(i, len) && chunk_end(i, len) < len ==> chunk_in_range(
                (i + 1) as nat,
                len,
            ) && chunk_start((i + 1) as nat) == chunk_end(i, len),
        chunk_in_range(last_chunk_index(len), len),
        chunk_end(last_chunk_index(len), len) == len,
        forall|i: nat| chunk_in_range(i, len) ==> i <= last_chunk_index(len),
{
    let q = last_chunk_index(len);
    lemma_fundamental_div_mod(len - 1, 244);
    assert(chunk_start(q) <= len - 1);
    assert(len <= chunk_start(q) + 244);
    assert forall|i: nat|
        chunk_in_range(i, len) && chunk_end(i, len) < len implies chunk_in_range(
        (i + 1) as nat,
        len,
    ) && chunk_start((i + 1) as nat) == chunk_end(i, len) by {
        assert(chunk_start((i + 1) as nat) == chunk_start(i) + 244) by (nonlinear_arith);
    }
    assert forall|i: nat| chunk_in_range(i, len) implies i <= q by {
        if i > q {
            lemma_mul_inequality(q as int + 1, i as int, 244);
            assert(chunk_start(i) >= (q + 1) * 244);
        }
    }
}

} // verus!
