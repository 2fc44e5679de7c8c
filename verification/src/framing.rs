//! Building fragments: a header put before a payload, and a message cut
//! into the fragments that reassemble to it.

use crate::error::ProtocolError;
use crate::header::{
    decode_after_encode, encode, header_bytes, header_of, FLAG_FIRST, FLAG_LAST, FLAG_MIDDLE,
    FLAG_ONLY,
};
use crate::reassembly::{
    contents, continues, ends, joined_payloads, payload_of, reassembled,
    tagged_fragments_reassemble,
};
use vstd::prelude::*;
use vstd::slice::slice_subrange;

verus! {

/// The number of fragments that a message of `length` bytes is cut into
/// when each fragment carries at most `chunk` of them: the quotient rounded
/// up, and one fragment with no payload for an empty message.
pub open spec fn fragment_count(length: int, chunk: int) -> int
    recommends
        length >= 0,
        chunk >= 1,
{
    if length == 0 {
        1
    } else {
        (length + chunk - 1) / chunk
    }
}

/// The flags of fragment `index` out of `count`: the first bit on the first
/// fragment, the last bit on the last one, both on a fragment that is both.
pub open spec fn position_flags(index: int, count: int) -> u32 {
    if count == 1 {
        FLAG_ONLY
    } else if index == 0 {
        FLAG_FIRST
    } else if index == count - 1 {
        FLAG_LAST
    } else {
        FLAG_MIDDLE
    }
}

/// The bytes of `message` that fragment `index` carries.
pub open spec fn chunk_at(message: Seq<u8>, chunk: int, index: int) -> Seq<u8>
    recommends
        chunk >= 1,
        0 <= index < fragment_count(message.len() as int, chunk),
{
    let start = index * chunk;
    let end = if start + chunk < message.len() {
        start + chunk
    } else {
        message.len() as int
    };
    message.subrange(start, end)
}

/// Fragment `index` of `message`: its header, which declares the length of
/// the whole message, and its chunk.
pub open spec fn fragment_at(message: Seq<u8>, chunk: int, index: int) -> Seq<u8> {
    header_bytes(
        message.len() as u32,
        position_flags(index, fragment_count(message.len() as int, chunk)),
    ) + chunk_at(message, chunk, index)
}

/// The fragments that `message` is cut into, in order.
pub open spec fn fragments_of(message: Seq<u8>, chunk: int) -> Seq<Seq<u8>>
    recommends
        chunk >= 1,
        message.len() <= u32::MAX,
{
    Seq::new(
        fragment_count(message.len() as int, chunk) as nat,
        |index: int| fragment_at(message, chunk, index),
    )
}

/// Builds one fragment: the encoded header, then the payload.
pub fn frame(declared_length: u32, flags: u32, payload: &[u8]) -> (r: Vec<u8>)
    ensures
        r@ == header_bytes(declared_length, flags) + payload@,
{
    let header = encode(declared_length, flags);
    let mut fragment: Vec<u8> = Vec::new();
    fragment.extend_from_slice(header.as_slice());
    fragment.extend_from_slice(payload);
    assert(fragment@ =~= header_bytes(declared_length, flags) + payload@);
    fragment
}

/// How the rounded-up quotient bounds the products next to a length.
proof fn count_brackets_length(length: int, chunk: int)
    requires
        length >= 1,
        chunk >= 1,
    ensures
        fragment_count(length, chunk) >= 1,
        (fragment_count(length, chunk) - 1) * chunk < length,
        length <= fragment_count(length, chunk) * chunk,
{
    let n = (length + chunk - 1) / chunk;
    vstd::arithmetic::div_mod::lemma_fundamental_div_mod(length + chunk - 1, chunk);
    vstd::arithmetic::div_mod::lemma_mod_bound(length + chunk - 1, chunk);
    assert((n - 1) * chunk == chunk * n - chunk) by (nonlinear_arith);
    assert(n * chunk == chunk * n) by (nonlinear_arith);
    assert(n >= 1) by (nonlinear_arith)
        requires
            chunk * n + chunk > length + chunk - 1,
            length >= 1,
            chunk >= 1,
    ;
}

/// A whole number of chunks that lies below the length leaves a fragment
/// index; one that reaches it has covered all fragments.
proof fn index_against_count(length: int, chunk: int, index: int)
    requires
        length >= 1,
        chunk >= 1,
        index >= 0,
    ensures
        index * chunk < length <==> index < fragment_count(length, chunk),
{
    let n = fragment_count(length, chunk);
    count_brackets_length(length, chunk);
    if index < n {
        assert(index * chunk <= (n - 1) * chunk) by (nonlinear_arith)
            requires
                index <= n - 1,
                chunk >= 1,
        ;
    } else {
        assert(index * chunk >= n * chunk) by (nonlinear_arith)
            requires
                index >= n,
                chunk >= 1,
        ;
    }
}

/// Cuts a message into fragments of at most `chunk` payload bytes each.
///
/// The first fragment is flagged first, the last one last, those between
/// them middle, and a fragment that is both first and last is flagged as
/// the only one. Every header declares the length of the whole message.
/// There is no fragmenting with an empty chunk, nor of a message whose
/// length a header cannot declare.
pub fn fragment_message(message: &[u8], chunk: usize) -> (r: Option<Vec<Vec<u8>>>)
    ensures
        r is Some <==> chunk >= 1 && message@.len() <= u32::MAX,
        r matches Some(fragments) ==> contents(fragments@) == fragments_of(
            message@,
            chunk as int,
        ),
        r matches Some(fragments) ==> reassembled(contents(fragments@)) == Ok::<
            Seq<u8>,
            ProtocolError,
        >(message@),
{
    let length = message.len();
    if chunk == 0 || length > u32::MAX as usize {
        return None;
    }
    let declared = length as u32;
    let ghost count = fragment_count(length as int, chunk as int);
    let mut fragments: Vec<Vec<u8>> = Vec::new();
    if length == 0 {
        let fragment = frame(declared, FLAG_ONLY, message);
        assert(message@ =~= chunk_at(message@, chunk as int, 0));
        fragments.push(fragment);
    } else {
        let mut start: usize = 0;
        proof {
            count_brackets_length(length as int, chunk as int);
        }
        while start < length
            invariant
                length == message@.len(),
                1 <= length <= u32::MAX,
                declared == length,
                chunk >= 1,
                count == fragment_count(length as int, chunk as int),
                start <= length,
                fragments@.len() <= count,
                start < length ==> start == fragments@.len() * chunk,
                start == length ==> fragments@.len() == count,
                forall|j: int|
                    0 <= j < fragments@.len() ==> (#[trigger] fragments@[j])@ == fragment_at(
                        message@,
                        chunk as int,
                        j,
                    ),
            decreases length - start,
        {
            let ghost index = fragments@.len() as int;
            let first = start == 0;
            let last = length - start <= chunk;
            let end = if last {
                length
            } else {
                start + chunk
            };
            proof {
                index_against_count(length as int, chunk as int, index);
                index_against_count(length as int, chunk as int, index + 1);
                assert((index + 1) * chunk == index * chunk + chunk) by (nonlinear_arith);
                assert(first <==> index == 0) by (nonlinear_arith)
                    requires
                        start == index * chunk,
                        chunk >= 1,
                        index >= 0,
                        first <==> start == 0,
                ;
                assert(last <==> index == count - 1);
            }
            let flags = if first && last {
                FLAG_ONLY
            } else if first {
                FLAG_FIRST
            } else if last {
                FLAG_LAST
            } else {
                FLAG_MIDDLE
            };
            let fragment = frame(declared, flags, slice_subrange(message, start, end));
            assert(fragment@ == fragment_at(message@, chunk as int, index));
            fragments.push(fragment);
            start = end;
        }
    }
    proof {
        assert(contents(fragments@) =~= fragments_of(message@, chunk as int));
        cut_message_reassembles(message@, chunk as int);
    }
    Some(fragments)
}

/// The chunks of the fragments from `from` on are the rest of the message.
proof fn chunks_join_to_rest(message: Seq<u8>, chunk: int, from: int)
    requires
        chunk >= 1,
        message.len() <= u32::MAX,
        0 <= from <= fragment_count(message.len() as int, chunk),
    ensures
        from * chunk <= message.len() ==> joined_payloads(
            fragments_of(message, chunk).skip(from),
        ) == message.subrange(from * chunk, message.len() as int),
        from * chunk > message.len() ==> joined_payloads(fragments_of(message, chunk).skip(from))
            == Seq::<u8>::empty(),
    decreases fragment_count(message.len() as int, chunk) - from,
{
    let length = message.len() as int;
    let count = fragment_count(length, chunk);
    let fragments = fragments_of(message, chunk);
    let rest = fragments.skip(from);
    if length >= 1 {
        count_brackets_length(length, chunk);
        index_against_count(length, chunk, from);
    }
    if from == count {
        assert(rest.len() == 0);
        assert(from * chunk <= length ==> message.subrange(from * chunk, length)
            =~= Seq::<u8>::empty());
    } else {
        assert((from + 1) * chunk == from * chunk + chunk) by (nonlinear_arith);
        assert(from * chunk >= 0) by (nonlinear_arith)
            requires
                from >= 0,
                chunk >= 1,
        ;
        chunks_join_to_rest(message, chunk, from + 1);
        assert(rest[0] == fragment_at(message, chunk, from));
        assert(rest.drop_first() =~= fragments.skip(from + 1));
        let header = header_bytes(length as u32, position_flags(from, count));
        decode_after_encode(length as u32, position_flags(from, count), chunk_at(message, chunk, from));
        assert(payload_of(rest[0]) =~= chunk_at(message, chunk, from));
        if length == 0 {
            assert(from == 0);
            assert(from * chunk == 0) by (nonlinear_arith)
                requires
                    from == 0,
            ;
        }
        assert(from * chunk <= length);
        assert(joined_payloads(rest) =~= message.subrange(from * chunk, length));
    }
}

/// A message cut into fragments of at most `chunk` payload bytes, the
/// quotient rounded up many of them, reassembles to exactly its bytes.
pub proof fn cut_message_reassembles(message: Seq<u8>, chunk: int)
    requires
        chunk >= 1,
        message.len() <= u32::MAX,
    ensures
        fragments_of(message, chunk).len() == fragment_count(message.len() as int, chunk),
        message.len() >= 1 ==> (fragments_of(message, chunk).len() - 1) * chunk < message.len()
            <= fragments_of(message, chunk).len() * chunk,
        forall|i: int|
            0 <= i < fragments_of(message, chunk).len() ==> payload_of(
                #[trigger] fragments_of(message, chunk)[i],
            ).len() <= chunk,
        reassembled(fragments_of(message, chunk)) == Ok::<Seq<u8>, ProtocolError>(message),
{
    let length = message.len() as int;
    let count = fragment_count(length, chunk);
    let fragments = fragments_of(message, chunk);
    if length >= 1 {
        count_brackets_length(length, chunk);
    }
    assert forall|i: int| 0 <= i < count implies {
        &&& (#[trigger] fragments[i]).len() >= 8
        &&& header_of(fragments[i]).flags == position_flags(i, count)
        &&& header_of(fragments[i]).declared_length == length
        &&& payload_of(fragments[i]) == chunk_at(message, chunk, i)
        &&& payload_of(fragments[i]).len() <= chunk
    } by {
        decode_after_encode(length as u32, position_flags(i, count), chunk_at(message, chunk, i));
        assert(payload_of(fragments[i]) =~= chunk_at(message, chunk, i));
        if length >= 1 {
            index_against_count(length, chunk, i);
        } else {
            assert(i * chunk == 0) by (nonlinear_arith)
                requires
                    i == 0,
            ;
        }
        assert(i * chunk >= 0) by (nonlinear_arith)
            requires
                i >= 0,
                chunk >= 1,
        ;
    }
    let leading = fragments.subrange(0, count - 1);
    let last = fragments[count - 1];
    assert(fragments =~= leading + seq![last]);
    assert forall|i: int| 0 <= i < leading.len() implies continues(#[trigger] leading[i]) by {
        assert(leading[i] == fragments[i]);
    }
    assert(ends(last));
    chunks_join_to_rest(message, chunk, 0);
    assert(fragments.skip(0) =~= fragments);
    assert(0 * chunk == 0) by (nonlinear_arith);
    assert(message.subrange(0, length) =~= message);
    tagged_fragments_reassemble(leading, last);
}

} // verus!
