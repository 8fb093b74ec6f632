//! The wire-level message envelope: a numeric id, a type tag and a text
//! payload, serialized to a compact byte string.
//!
//! The layout is fixed: eight little-endian bytes for the id, one byte for
//! the type tag, and the payload bytes up to the end of the buffer.  `decode`
//! accepts exactly the buffers that `encode` produces, and
//! [`lemma_decode_encode_roundtrip`] proves that every envelope survives the
//! round trip unchanged.

use vstd::prelude::*;
use vstd::bytes::{spec_u64_from_le_bytes, spec_u64_to_le_bytes, u64_from_le_bytes, u64_to_le_bytes,
    lemma_auto_spec_u64_to_from_le_bytes};
use vstd::slice::{slice_subrange, slice_to_vec};
use crate::error::Error;

verus! {

/// The type tag carried by every envelope.
#[derive(Clone, Copy, Debug, PartialEq, Eq, Structural)]
pub enum MessageType {
    Hello,
    Goodbye,
}

/// The decoded logical message exchanged between producers and consumers.
pub struct Envelope {
    pub id: u64,
    pub msg_type: MessageType,
    pub text: Vec<u8>,
}

/// The mathematical value of an [`Envelope`].
pub struct EnvelopeView {
    pub id: u64,
    pub msg_type: MessageType,
    pub text: Seq<u8>,
}

impl View for Envelope {
    type V = EnvelopeView;

    open spec fn view(&self) -> EnvelopeView {
        EnvelopeView { id: self.id, msg_type: self.msg_type, text: self.text@ }
    }
}

impl Clone for Envelope {
    fn clone(&self) -> (r: Self)
        ensures
            r@ == self@,
    {
        Envelope { id: self.id, msg_type: self.msg_type, text: clone_bytes(&self.text) }
    }
}

/// The byte that stands for a message type on the wire.
pub open spec fn spec_type_tag(t: MessageType) -> u8 {
    match t {
        MessageType::Hello => 0,
        MessageType::Goodbye => 1,
    }
}

/// The message type a tag byte stands for, if any.
pub open spec fn spec_tag_type(b: u8) -> Option<MessageType> {
    if b == 0 {
        Some(MessageType::Hello)
    } else if b == 1 {
        Some(MessageType::Goodbye)
    } else {
        None
    }
}

/// The serialized form of an envelope: id, tag, then the payload.
pub open spec fn spec_encode(m: EnvelopeView) -> Seq<u8> {
    spec_u64_to_le_bytes(m.id) + seq![spec_type_tag(m.msg_type)] + m.text
}

/// The envelope a byte string stands for: `None` when the buffer is shorter
/// than a header or carries an unknown type tag.
pub open spec fn spec_decode(b: Seq<u8>) -> Option<EnvelopeView> {
    if b.len() < 9 {
        None
    } else {
        match spec_tag_type(b[8]) {
            Option::Some(t) => Option::Some(
                EnvelopeView {
                    id: spec_u64_from_le_bytes(b.take(8)),
                    msg_type: t,
                    text: b.skip(9),
                },
            ),
            Option::None => Option::None,
        }
    }
}

/// Decoding inverts encoding: every envelope comes back from its own bytes.
pub proof fn lemma_decode_encode_roundtrip(m: EnvelopeView)
    ensures
        spec_decode(spec_encode(m)) == Some(m),
{
    lemma_auto_spec_u64_to_from_le_bytes();
    let b = spec_encode(m);
    assert(b.take(8) =~= spec_u64_to_le_bytes(m.id));
    assert(b[8] == spec_type_tag(m.msg_type));
    assert(b.skip(9) =~= m.text);
    assert(spec_decode(b) == Some(m));
}

/// A decoded envelope is the only preimage of its bytes: encoding is
/// injective wherever decoding succeeds.
pub proof fn lemma_decode_injective(b1: Seq<u8>, b2: Seq<u8>)
    requires
        spec_decode(b1) is Some,
        spec_decode(b1) == spec_decode(b2),
    ensures
        b1 == b2,
{
    lemma_auto_spec_u64_to_from_le_bytes();
    assert(b1.take(8).len() == 8);
    assert(b2.take(8).len() == 8);
    assert(spec_u64_to_le_bytes(spec_u64_from_le_bytes(b1.take(8))) == b1.take(8));
    assert(spec_u64_to_le_bytes(spec_u64_from_le_bytes(b2.take(8))) == b2.take(8));
    assert(b1.take(8) == b2.take(8));
    assert(spec_tag_type(b1[8]) == spec_tag_type(b2[8]));
    assert(b1[8] == b2[8]) by {
        let t1 = spec_tag_type(b1[8]);
        if b1[8] != b2[8] {
            assert(t1 is Some);
        }
    }
    assert(b1 =~= b2) by {
        assert(b1.len() == 9 + b1.skip(9).len());
        assert(b2.len() == 9 + b2.skip(9).len());
        assert forall|i: int| 0 <= i < b1.len() implies b1[i] == b2[i] by {
            if i < 8 {
                assert(b1.take(8)[i] == b2.take(8)[i]);
            } else if i > 8 {
                assert(b1.skip(9)[i - 9] == b2.skip(9)[i - 9]);
            }
        }
    }
}

fn clone_bytes(b: &Vec<u8>) -> (r: Vec<u8>)
    ensures
        r@ == b@,
{
    let mut out: Vec<u8> = Vec::new();
    let mut i: usize = 0;
    while i < b.len()
        invariant
            i <= b.len(),
            out@ == b@.take(i as int),
        decreases b.len() - i,
    {
        out.push(b[i]);
        i = i + 1;
        proof {
            assert(out@ =~= b@.take(i as int));
        }
    }
    proof {
        assert(b@.take(b@.len() as int) =~= b@);
    }
    out
}

/// Serialize an envelope for the wire.
pub fn encode(m: &Envelope) -> (r: Vec<u8>)
    ensures
        r@ == spec_encode(m@),
{
    let mut out = u64_to_le_bytes(m.id);
    let tag: u8 = match m.msg_type {
        MessageType::Hello => 0,
        MessageType::Goodbye => 1,
    };
    out.push(tag);
    let mut i: usize = 0;
    while i < m.text.len()
        invariant
            i <= m.text.len(),
            out@ == spec_u64_to_le_bytes(m.id) + seq![spec_type_tag(m.msg_type)] + m.text@.take(
                i as int,
            ),
        decreases m.text.len() - i,
    {
        out.push(m.text[i]);
        i = i + 1;
        proof {
            assert(out@ =~= spec_u64_to_le_bytes(m.id) + seq![spec_type_tag(m.msg_type)]
                + m.text@.take(i as int));
        }
    }
    proof {
        assert(m.text@.take(m.text@.len() as int) =~= m.text@);
    }
    out
}

/// Parse an envelope from the wire.
///
/// Returns the unique envelope whose encoding the buffer is, and
/// `DecodeError` exactly on the buffers that no envelope encodes to: those
/// shorter than a header and those with an unknown type tag.
pub fn decode(b: &[u8]) -> (r: Result<Envelope, Error>)
    ensures
        match r {
            Ok(m) => spec_decode(b@) == Some(m@),
            Err(e) => e == Error::DecodeError && spec_decode(b@) is None,
        },
{
    if b.len() < 9 {
        return Err(Error::DecodeError);
    }
    let id_bytes = slice_subrange(b, 0, 8);
    let id = u64_from_le_bytes(id_bytes);
    let msg_type = match b[8] {
        0u8 => MessageType::Hello,
        1u8 => MessageType::Goodbye,
        _ => {
            return Err(Error::DecodeError);
        },
    };
    let text = slice_to_vec(slice_subrange(b, 9, b.len()));
    proof {
        assert(b@.subrange(0, 8) =~= b@.take(8));
        assert(b@.subrange(9, b@.len() as int) =~= b@.skip(9));
    }
    Ok(Envelope { id, msg_type, text })
}

} // verus!
