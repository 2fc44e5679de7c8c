//! Putting the fragments of one message back together.
//!
//! The fragments of a message arrive one read at a time. Each is given to
//! a [`Reassembler`], which either wants the next one, hands out the whole
//! message, or fails. What happens to one fragment is [`accept_fragment`];
//! what happens to a whole series of reads is [`reassembled`].

use crate::error::ProtocolError;
use crate::header::{
    classify, decode, decode_after_encode, header_bytes, header_of, kind_of, FragmentKind,
    FLAG_ONLY, PDU_HEADER_LENGTH,
};
use vstd::prelude::*;
use vstd::slice::slice_subrange;

verus! {

/// What one fragment does to a message that is being put together.
pub enum Outcome {
    /// The message goes on; the payload bytes received so far.
    Pending(Seq<u8>),
    /// The message is complete; all its bytes.
    Complete(Seq<u8>),
    /// The message is lost.
    Failed(ProtocolError),
}

/// The payload of a fragment: all that follows the header.
pub open spec fn payload_of(fragment: Seq<u8>) -> Seq<u8>
    recommends
        fragment.len() >= 8,
{
    fragment.subrange(8, fragment.len() as int)
}

/// What becomes of a message of which `received` has arrived when the next
/// read returns `fragment`.
///
/// A fragment too short for a header is malformed. Flags outside the four
/// defined combinations are unsupported. Otherwise the payload is appended;
/// a terminal fragment then completes the message if its declared length is
/// the number of payload bytes received, that fragment's own included, and
/// is a length mismatch if not. The declared length of other fragments is
/// not looked at, nor is a message asked to start with a first fragment.
pub open spec fn accept_fragment(received: Seq<u8>, fragment: Seq<u8>) -> Outcome {
    if fragment.len() < 8 {
        Outcome::Failed(ProtocolError::MalformedFragment { length: fragment.len() as usize })
    } else {
        let header = header_of(fragment);
        let total = received + payload_of(fragment);
        match kind_of(header.flags) {
            None => Outcome::Failed(ProtocolError::UnsupportedFlags { flags: header.flags }),
            Some(kind) => if !kind.terminal() {
                Outcome::Pending(total)
            } else if total.len() == header.declared_length {
                Outcome::Complete(total)
            } else {
                Outcome::Failed(
                    ProtocolError::LengthMismatch {
                        declared: header.declared_length,
                        received: total.len() as usize,
                    },
                )
            },
        }
    }
}

/// The fragment that a read left in `buffer` when it reported `transferred`
/// bytes: that many bytes from the start of the buffer, and no more than
/// the buffer holds.
pub open spec fn fragment_read(buffer: Seq<u8>, transferred: u32) -> Seq<u8> {
    if transferred <= buffer.len() {
        buffer.subrange(0, transferred as int)
    } else {
        buffer
    }
}

/// What the restricted mode makes of one read. In that mode a message is
/// one fragment, flagged as the only one, and nothing is accumulated:
/// every other flag bitmask is unsupported, the three that belong to a
/// message of several fragments included.
pub open spec fn accept_single(fragment: Seq<u8>) -> Result<Seq<u8>, ProtocolError> {
    if fragment.len() < 8 {
        Err(ProtocolError::MalformedFragment { length: fragment.len() as usize })
    } else {
        let header = header_of(fragment);
        if header.flags != FLAG_ONLY {
            Err(ProtocolError::UnsupportedFlags { flags: header.flags })
        } else if payload_of(fragment).len() != header.declared_length {
            Err(
                ProtocolError::LengthMismatch {
                    declared: header.declared_length,
                    received: payload_of(fragment).len() as usize,
                },
            )
        } else {
            Ok(payload_of(fragment))
        }
    }
}

/// What the reads `fragments` make of a message of which `received` has
/// arrived. Reading stops at the first fragment that completes or fails the
/// message; what follows it is not looked at. When the reads run out before
/// that, the next read returns nothing, and an empty read is malformed.
pub open spec fn reassemble_from(received: Seq<u8>, fragments: Seq<Seq<u8>>) -> Result<
    Seq<u8>,
    ProtocolError,
>
    decreases fragments.len(),
{
    if fragments.len() == 0 {
        Err(ProtocolError::MalformedFragment { length: 0 })
    } else {
        match accept_fragment(received, fragments[0]) {
            Outcome::Pending(total) => reassemble_from(total, fragments.drop_first()),
            Outcome::Complete(message) => Ok(message),
            Outcome::Failed(error) => Err(error),
        }
    }
}

/// The message that a series of reads yields, or the error that ends it.
pub open spec fn reassembled(fragments: Seq<Seq<u8>>) -> Result<Seq<u8>, ProtocolError> {
    reassemble_from(Seq::empty(), fragments)
}

/// Whether a fragment carries on a message without ending it: it holds a
/// header, and its flags say first or middle.
pub open spec fn continues(fragment: Seq<u8>) -> bool {
    &&& fragment.len() >= 8
    &&& (kind_of(header_of(fragment).flags) == Some(FragmentKind::First) || kind_of(
        header_of(fragment).flags,
    ) == Some(FragmentKind::Middle))
}

/// Whether a fragment holds a header whose flags say last or only.
pub open spec fn ends(fragment: Seq<u8>) -> bool {
    &&& fragment.len() >= 8
    &&& (kind_of(header_of(fragment).flags) == Some(FragmentKind::Last) || kind_of(
        header_of(fragment).flags,
    ) == Some(FragmentKind::Only))
}

/// The payloads of a series of fragments, one after the other. Each
/// fragment is taken to hold a header.
pub open spec fn joined_payloads(fragments: Seq<Seq<u8>>) -> Seq<u8>
    decreases fragments.len(),
{
    if fragments.len() == 0 {
        Seq::empty()
    } else {
        payload_of(fragments[0]) + joined_payloads(fragments.drop_first())
    }
}

/// The byte sequences that a list of buffers holds.
pub open spec fn contents(fragments: Seq<Vec<u8>>) -> Seq<Seq<u8>> {
    Seq::new(fragments.len(), |i: int| fragments[i]@)
}

/// A message in the making: the payload bytes of the fragments accepted so far.
#[derive(Debug, PartialEq, Eq)]
pub struct Reassembler {
    buffer: Vec<u8>,
}

impl View for Reassembler {
    type V = Seq<u8>;

    closed spec fn view(&self) -> Seq<u8> {
        self.buffer@
    }
}

/// What a [`Reassembler`] makes of one fragment.
#[derive(Debug, PartialEq, Eq)]
pub enum Reassembly {
    /// The message goes on: read the next fragment and give it to this one.
    Pending(Reassembler),
    /// The message is complete.
    Complete(Vec<u8>),
    /// The message is lost; nothing of it is kept.
    Failed(ProtocolError),
}

impl View for Reassembly {
    type V = Outcome;

    open spec fn view(&self) -> Outcome {
        match self {
            Reassembly::Pending(reassembler) => Outcome::Pending(reassembler@),
            Reassembly::Complete(message) => Outcome::Complete(message@),
            Reassembly::Failed(error) => Outcome::Failed(*error),
        }
    }
}

impl Reassembler {
    /// Starts a message: nothing received yet.
    pub fn new() -> (r: Self)
        ensures
            r@ == Seq::<u8>::empty(),
    {
        Reassembler { buffer: Vec::new() }
    }

    /// The running count of payload bytes received.
    pub fn received(&self) -> (n: usize)
        ensures
            n == self@.len(),
    {
        self.buffer.len()
    }

    /// Takes the fragment that the next read returned.
    pub fn accept(self, fragment: &[u8]) -> (r: Reassembly)
        ensures
            r@ == accept_fragment(self@, fragment@),
    {
        let header = match decode(fragment) {
            Ok(header) => header,
            Err(error) => {
                return Reassembly::Failed(error);
            },
        };
        let kind = match classify(header.flags) {
            Ok(kind) => kind,
            Err(error) => {
                return Reassembly::Failed(error);
            },
        };
        let mut buffer = self.buffer;
        let payload = slice_subrange(fragment, PDU_HEADER_LENGTH, fragment.len());
        buffer.extend_from_slice(payload);
        assert(buffer@ =~= self@ + payload_of(fragment@));
        if !kind.is_terminal() {
            Reassembly::Pending(Reassembler { buffer })
        } else if buffer.len() == header.declared_length as usize {
            Reassembly::Complete(buffer)
        } else {
            Reassembly::Failed(
                ProtocolError::LengthMismatch {
                    declared: header.declared_length,
                    received: buffer.len(),
                },
            )
        }
    }

    /// Takes the buffer that the next read filled and the number of bytes
    /// that it reported. What lies in the buffer beyond that number is not
    /// part of the fragment.
    pub fn accept_read(self, buffer: &[u8], transferred: u32) -> (r: Reassembly)
        ensures
            r@ == accept_fragment(self@, fragment_read(buffer@, transferred)),
    {
        if transferred as usize <= buffer.len() {
            self.accept(slice_subrange(buffer, 0, transferred as usize))
        } else {
            self.accept(buffer)
        }
    }
}

/// The restricted mode: takes the message out of the buffer that one read
/// filled, without copying it. `transferred` is the number of bytes that
/// the read reported. The read must hold a whole message, flagged as the
/// only fragment; a caller that uses this mode uses it for every read.
pub fn single_fragment_message<'a>(buffer: &'a [u8], transferred: u32) -> (r: Result<
    &'a [u8],
    ProtocolError,
>)
    ensures
        match accept_single(fragment_read(buffer@, transferred)) {
            Ok(message) => r matches Ok(bytes) && bytes@ == message,
            Err(error) => r == Err::<&[u8], ProtocolError>(error),
        },
{
    let fragment = if transferred as usize <= buffer.len() {
        slice_subrange(buffer, 0, transferred as usize)
    } else {
        buffer
    };
    let header = match decode(fragment) {
        Ok(header) => header,
        Err(error) => {
            return Err(error);
        },
    };
    if header.flags != FLAG_ONLY {
        return Err(ProtocolError::UnsupportedFlags { flags: header.flags });
    }
    let payload = slice_subrange(fragment, PDU_HEADER_LENGTH, fragment.len());
    if payload.len() != header.declared_length as usize {
        return Err(
            ProtocolError::LengthMismatch {
                declared: header.declared_length,
                received: payload.len(),
            },
        );
    }
    Ok(payload)
}

/// Puts one message together from a series of reads, first to last.
///
/// Stops at the fragment that completes or fails the message. Reads that
/// run out before the message is complete end in a malformed fragment, as
/// an empty read does.
pub fn reassemble(fragments: &[Vec<u8>]) -> (r: Result<Vec<u8>, ProtocolError>)
    ensures
        match reassembled(contents(fragments@)) {
            Ok(message) => r matches Ok(bytes) && bytes@ == message,
            Err(error) => r == Err::<Vec<u8>, ProtocolError>(error),
        },
{
    let mut reassembler = Reassembler::new();
    let mut i: usize = 0;
    assert(contents(fragments@).skip(0) =~= contents(fragments@));
    while i < fragments.len()
        invariant
            i <= fragments@.len(),
            reassembled(contents(fragments@)) == reassemble_from(
                reassembler@,
                contents(fragments@).skip(i as int),
            ),
        decreases fragments@.len() - i,
    {
        let ghost rest = contents(fragments@).skip(i as int);
        assert(rest[0] == fragments@[i as int]@);
        assert(rest.drop_first() =~= contents(fragments@).skip(i + 1));
        match reassembler.accept(fragments[i].as_slice()) {
            Reassembly::Pending(next) => {
                reassembler = next;
            },
            Reassembly::Complete(message) => {
                return Ok(message);
            },
            Reassembly::Failed(error) => {
                return Err(error);
            },
        }
        i += 1;
    }
    Err(ProtocolError::MalformedFragment { length: 0 })
}

/// Fragments that carry a message on are passed over one by one: after
/// them, reading goes on with their payloads appended to what had arrived.
pub proof fn reassembly_passes_continuing_fragments(
    received: Seq<u8>,
    leading: Seq<Seq<u8>>,
    rest: Seq<Seq<u8>>,
)
    requires
        forall|i: int| 0 <= i < leading.len() ==> continues(#[trigger] leading[i]),
    ensures
        reassemble_from(received, leading + rest) == reassemble_from(
            received + joined_payloads(leading),
            rest,
        ),
    decreases leading.len(),
{
    if leading.len() == 0 {
        assert(leading + rest =~= rest);
        assert(received + joined_payloads(leading) =~= received);
    } else {
        let first = leading[0];
        let total = received + payload_of(first);
        assert(continues(first));
        assert((leading + rest)[0] == first);
        assert((leading + rest).drop_first() =~= leading.drop_first() + rest);
        assert forall|i: int| 0 <= i < leading.drop_first().len() implies continues(
            #[trigger] leading.drop_first()[i],
        ) by {
            assert(leading.drop_first()[i] == leading[i + 1]);
        }
        reassembly_passes_continuing_fragments(total, leading.drop_first(), rest);
        assert(total + joined_payloads(leading.drop_first()) =~= received + joined_payloads(
            leading,
        ));
    }
}

/// The first fragment that does not carry the message on decides what a
/// series of reads yields: all before it only add their payloads, and
/// nothing after it is read.
pub proof fn reassembly_is_decided_by_first_deciding_fragment(
    leading: Seq<Seq<u8>>,
    fragment: Seq<u8>,
    rest: Seq<Seq<u8>>,
)
    requires
        forall|i: int| 0 <= i < leading.len() ==> continues(#[trigger] leading[i]),
        !continues(fragment),
    ensures
        match accept_fragment(joined_payloads(leading), fragment) {
            Outcome::Pending(_) => false,
            Outcome::Complete(message) => reassembled(leading + seq![fragment] + rest) == Ok::<
                Seq<u8>,
                ProtocolError,
            >(message),
            Outcome::Failed(error) => reassembled(leading + seq![fragment] + rest) == Err::<
                Seq<u8>,
                ProtocolError,
            >(error),
        },
{
    let tail = seq![fragment] + rest;
    assert(leading + seq![fragment] + rest =~= leading + tail);
    reassembly_passes_continuing_fragments(Seq::empty(), leading, tail);
    assert(Seq::<u8>::empty() + joined_payloads(leading) =~= joined_payloads(leading));
    assert(tail[0] == fragment);
}

/// A read of fewer than eight bytes is a malformed fragment, wherever in
/// a message it comes.
pub proof fn short_fragment_is_malformed(
    leading: Seq<Seq<u8>>,
    fragment: Seq<u8>,
    rest: Seq<Seq<u8>>,
)
    requires
        forall|i: int| 0 <= i < leading.len() ==> continues(#[trigger] leading[i]),
        fragment.len() < 8,
    ensures
        forall|received: Seq<u8>|
            accept_fragment(received, fragment) == Outcome::Failed(
                ProtocolError::MalformedFragment { length: fragment.len() as usize },
            ),
        reassembled(leading + seq![fragment] + rest) == Err::<Seq<u8>, ProtocolError>(
            ProtocolError::MalformedFragment { length: fragment.len() as usize },
        ),
{
    reassembly_is_decided_by_first_deciding_fragment(leading, fragment, rest);
}

/// A fragment whose flags are none of 0, 1, 2 and 3 is refused with its
/// flags, wherever in a message it comes.
pub proof fn undefined_flags_are_unsupported(
    leading: Seq<Seq<u8>>,
    fragment: Seq<u8>,
    rest: Seq<Seq<u8>>,
)
    requires
        forall|i: int| 0 <= i < leading.len() ==> continues(#[trigger] leading[i]),
        fragment.len() >= 8,
        header_of(fragment).flags > 3,
    ensures
        forall|received: Seq<u8>|
            accept_fragment(received, fragment) == Outcome::Failed(
                ProtocolError::UnsupportedFlags { flags: header_of(fragment).flags },
            ),
        reassembled(leading + seq![fragment] + rest) == Err::<Seq<u8>, ProtocolError>(
            ProtocolError::UnsupportedFlags { flags: header_of(fragment).flags },
        ),
{
    reassembly_is_decided_by_first_deciding_fragment(leading, fragment, rest);
}

/// A terminal fragment whose declared length is not the number of payload
/// bytes received, its own included, is a length mismatch.
pub proof fn wrong_declared_length_is_a_mismatch(
    leading: Seq<Seq<u8>>,
    last: Seq<u8>,
    rest: Seq<Seq<u8>>,
)
    requires
        forall|i: int| 0 <= i < leading.len() ==> continues(#[trigger] leading[i]),
        ends(last),
        header_of(last).declared_length != joined_payloads(leading + seq![last]).len(),
        joined_payloads(leading + seq![last]).len() <= usize::MAX,
    ensures
        reassembled(leading + seq![last] + rest) == Err::<Seq<u8>, ProtocolError>(
            ProtocolError::LengthMismatch {
                declared: header_of(last).declared_length,
                received: joined_payloads(leading + seq![last]).len() as usize,
            },
        ),
{
    joined_payloads_of_series(leading, seq![last]);
    joined_payloads_of_one(last);
    reassembly_is_decided_by_first_deciding_fragment(leading, last, rest);
}

/// Fragments of which all but the last carry the message on, and the last
/// is terminal and declares the number of payload bytes in all of them,
/// reassemble to their payloads in the order of arrival.
pub proof fn tagged_fragments_reassemble(leading: Seq<Seq<u8>>, last: Seq<u8>)
    requires
        forall|i: int| 0 <= i < leading.len() ==> continues(#[trigger] leading[i]),
        ends(last),
        header_of(last).declared_length == joined_payloads(leading + seq![last]).len(),
    ensures
        reassembled(leading + seq![last]) == Ok::<Seq<u8>, ProtocolError>(
            joined_payloads(leading + seq![last]),
        ),
{
    joined_payloads_of_series(leading, seq![last]);
    joined_payloads_of_one(last);
    reassembly_is_decided_by_first_deciding_fragment(leading, last, Seq::empty());
    assert(leading + seq![last] + Seq::<Seq<u8>>::empty() =~= leading + seq![last]);
}

/// One fragment flagged as the only one, which declares the length of its
/// payload, reassembles to exactly that payload.
pub proof fn only_fragment_reassembles(payload: Seq<u8>)
    requires
        payload.len() <= u32::MAX,
    ensures
        reassembled(seq![header_bytes(payload.len() as u32, FLAG_ONLY) + payload]) == Ok::<
            Seq<u8>,
            ProtocolError,
        >(payload),
{
    let fragment = header_bytes(payload.len() as u32, FLAG_ONLY) + payload;
    decode_after_encode(payload.len() as u32, FLAG_ONLY, payload);
    assert(payload_of(fragment) =~= payload);
    assert(Seq::<u8>::empty() + payload_of(fragment) =~= payload);
    assert(seq![fragment][0] == fragment);
}

/// A message that the restricted mode accepts is the message that
/// reassembly makes of the same read.
pub proof fn single_mode_agrees_with_reassembly(fragment: Seq<u8>)
    ensures
        accept_single(fragment) matches Ok(message) ==> reassembled(seq![fragment]) == Ok::<
            Seq<u8>,
            ProtocolError,
        >(message),
{
    if accept_single(fragment) is Ok {
        assert(Seq::<u8>::empty() + payload_of(fragment) =~= payload_of(fragment));
        assert(seq![fragment][0] == fragment);
    }
}

/// The payload of a series of one fragment is the payload of that fragment.
pub proof fn joined_payloads_of_one(fragment: Seq<u8>)
    ensures
        joined_payloads(seq![fragment]) == payload_of(fragment),
{
    let series = seq![fragment];
    assert(series[0] == fragment);
    assert(series.drop_first().len() == 0);
    assert(joined_payloads(series.drop_first()) =~= Seq::<u8>::empty());
    assert(joined_payloads(series) =~= payload_of(fragment));
}

/// The payloads of two series of fragments, one after the other, are the
/// payloads of the first followed by those of the second.
pub proof fn joined_payloads_of_series(first: Seq<Seq<u8>>, second: Seq<Seq<u8>>)
    ensures
        joined_payloads(first + second) == joined_payloads(first) + joined_payloads(second),
    decreases first.len(),
{
    if first.len() == 0 {
        assert(first + second =~= second);
        assert(joined_payloads(first) + joined_payloads(second) =~= joined_payloads(second));
    } else {
        assert((first + second)[0] == first[0]);
        assert((first + second).drop_first() =~= first.drop_first() + second);
        joined_payloads_of_series(first.drop_first(), second);
        assert(payload_of(first[0]) + (joined_payloads(first.drop_first()) + joined_payloads(
            second,
        )) =~= joined_payloads(first) + joined_payloads(second));
    }
}

} // verus!
