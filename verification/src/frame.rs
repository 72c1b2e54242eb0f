//! Frame codec: checksums, request frames and the response descriptor.

use crate::cmd::{SlLidarCmd, REQUEST_SYNC, RESPONSE_SYNC_1, RESPONSE_SYNC_2};
use crate::error::RxError;
use crate::util::{le_u32, read_le_u32};
use vstd::prelude::*;
use vstd::slice::slice_subrange;

verus! {

/// XOR of every byte of `bytes`; `0` for the empty sequence.
pub open spec fn xor_fold(bytes: Seq<u8>) -> u8
    decreases bytes.len(),
{
    if bytes.len() == 0 {
        0u8
    } else {
        xor_fold(bytes.drop_last()) ^ bytes.last()
    }
}

/// Checksum of a message: the XOR of all its bytes.
pub fn checksum(payload: &[u8]) -> (sum: u8)
    ensures
        sum == xor_fold(payload@),
{
    let mut sum: u8 = 0;
    let mut i: usize = 0;
    while i < payload.len()
        invariant
            i <= payload@.len(),
            sum == xor_fold(payload@.take(i as int)),
        decreases payload@.len() - i,
    {
        assert(payload@.take(i + 1).drop_last() =~= payload@.take(i as int));
        sum = sum ^ payload[i];
        i = i + 1;
    }
    assert(payload@.take(i as int) =~= payload@);
    sum
}

/// The checksum of two messages laid end to end is the XOR of their
/// checksums.
pub proof fn lemma_xor_fold_concat(first: Seq<u8>, second: Seq<u8>)
    ensures
        xor_fold(first + second) == xor_fold(first) ^ xor_fold(second),
    decreases second.len(),
{
    let a = xor_fold(first);
    if second.len() == 0 {
        assert(first + second =~= first);
        assert(a ^ 0u8 == a) by (bit_vector);
    } else {
        lemma_xor_fold_concat(first, second.drop_last());
        assert((first + second).drop_last() =~= first + second.drop_last());
        let b = xor_fold(second.drop_last());
        let c = second.last();
        assert((a ^ b) ^ c == a ^ (b ^ c)) by (bit_vector);
    }
}

/// The checksum does not depend on which of two parts of a message comes
/// first.
pub proof fn lemma_xor_fold_swap(first: Seq<u8>, second: Seq<u8>)
    ensures
        xor_fold(first + second) == xor_fold(second + first),
{
    lemma_xor_fold_concat(first, second);
    lemma_xor_fold_concat(second, first);
    let a = xor_fold(first);
    let b = xor_fold(second);
    assert(a ^ b == b ^ a) by (bit_vector);
}

/// Taking one byte out of a message takes it out of the checksum.
proof fn lemma_xor_fold_remove(message: Seq<u8>, i: int)
    requires
        0 <= i < message.len(),
    ensures
        xor_fold(message) == xor_fold(message.remove(i)) ^ message[i],
{
    let head = message.take(i);
    let tail = message.skip(i + 1);
    let x = message[i];
    assert(message =~= head.push(x) + tail);
    assert(message.remove(i) =~= head + tail);
    assert(head.push(x).drop_last() =~= head);
    lemma_xor_fold_concat(head.push(x), tail);
    lemma_xor_fold_concat(head, tail);
    let a = xor_fold(head);
    let b = xor_fold(tail);
    assert((a ^ x) ^ b == (a ^ b) ^ x) by (bit_vector);
}

/// The checksum does not depend on the order of the bytes: two messages
/// that hold the same bytes, each as often as the other, have the same
/// checksum.
pub proof fn lemma_xor_fold_permutation(first: Seq<u8>, second: Seq<u8>)
    requires
        first.to_multiset() == second.to_multiset(),
    ensures
        xor_fold(first) == xor_fold(second),
    decreases first.len(),
{
    first.to_multiset_ensures();
    second.to_multiset_ensures();
    if first.len() > 0 {
        let x = first.last();
        let rest = first.drop_last();
        assert(first =~= rest.push(x));
        rest.to_multiset_ensures();
        assert(first.to_multiset().count(x) > 0);
        assert(second.contains(x));
        let j = choose|j: int| 0 <= j < second.len() && second[j] == x;
        assert(rest.to_multiset() =~= first.to_multiset().remove(x));
        assert(second.remove(j).to_multiset() =~= rest.to_multiset());
        lemma_xor_fold_permutation(rest, second.remove(j));
        lemma_xor_fold_remove(second, j);
    }
}

/// A message followed by its checksum has the checksum zero.
pub proof fn lemma_xor_fold_with_checksum(message: Seq<u8>)
    ensures
        xor_fold(message.push(xor_fold(message))) == 0,
{
    let a = xor_fold(message);
    assert(message.push(a).drop_last() =~= message);
    assert(a ^ a == 0u8) by (bit_vector);
}

/// The bytes of a request. A command without payload is the sync byte and
/// the opcode. A command with payload adds the payload's length in one
/// byte, the payload, and the checksum of everything before it.
pub open spec fn request_frame(opcode: u8, payload: Option<Seq<u8>>) -> Seq<u8> {
    match payload {
        None => seq![REQUEST_SYNC, opcode],
        Some(body) => {
            let head = seq![REQUEST_SYNC, opcode, body.len() as u8] + body;
            head.push(xor_fold(head))
        },
    }
}

/// The view of an optional payload.
pub open spec fn payload_view(payload: Option<&[u8]>) -> Option<Seq<u8>> {
    match payload {
        None => None,
        Some(body) => Some(body@),
    }
}

/// Builds the bytes of a request. The payload's length must fit the length
/// byte.
pub fn encode_request(command: SlLidarCmd, payload: Option<&[u8]>) -> (frame: Vec<u8>)
    requires
        payload matches Some(body) ==> body@.len() <= 255,
    ensures
        frame@ == request_frame(command.spec_opcode(), payload_view(payload)),
{
    let mut frame: Vec<u8> = Vec::new();
    frame.push(REQUEST_SYNC);
    frame.push(command.opcode());
    match payload {
        None => {
            assert(frame@ =~= seq![REQUEST_SYNC, command.spec_opcode()]);
        },
        Some(body) => {
            frame.push(body.len() as u8);
            let mut i: usize = 0;
            while i < body.len()
                invariant
                    i <= body@.len(),
                    frame@ == seq![REQUEST_SYNC, command.spec_opcode(), body@.len() as u8]
                        + body@.take(i as int),
                decreases body@.len() - i,
            {
                frame.push(body[i]);
                assert(body@.take(i + 1) =~= body@.take(i as int).push(body@[i as int]));
                i = i + 1;
            }
            assert(body@.take(i as int) =~= body@);
            let sum = checksum(frame.as_slice());
            frame.push(sum);
        },
    }
    frame
}

/// The descriptor that precedes every response: the length of the payload
/// (30 bits), the send mode (2 bits) and the type of the data.
#[derive(Debug, Clone, Copy, PartialEq, Eq, Structural)]
pub struct ResponseDescriptor {
    pub len: u32,
    pub send_mode: u8,
    pub data_type: u8,
}

/// A response: its descriptor and as many payload bytes as the descriptor
/// announces.
#[derive(Debug, Clone)]
pub struct Response {
    pub descriptor: ResponseDescriptor,
    pub data: Vec<u8>,
}

impl Response {
    /// The payload is as long as the descriptor says.
    pub open spec fn wf(&self) -> bool {
        self.data@.len() == self.descriptor.len
    }
}

/// Whether seven bytes begin with the sync sequence of a descriptor.
pub open spec fn has_sync(bytes: Seq<u8>) -> bool {
    bytes.len() == 7 && bytes[0] == RESPONSE_SYNC_1 && bytes[1] == RESPONSE_SYNC_2
}

/// The descriptor that seven bytes hold. Bytes 2 to 5 are a little-endian
/// word: its low 30 bits are the length, its top two bits the send mode.
/// Byte 6 is the data type.
pub open spec fn descriptor_of(bytes: Seq<u8>) -> ResponseDescriptor {
    ResponseDescriptor {
        len: (le_u32(bytes.subrange(2, 6)) % 0x4000_0000) as u32,
        send_mode: (le_u32(bytes.subrange(2, 6)) / 0x4000_0000) as u8,
        data_type: bytes[6],
    }
}

/// The seven bytes that stand for a descriptor.
pub open spec fn descriptor_bytes(descriptor: ResponseDescriptor) -> Seq<u8> {
    let word = descriptor.len + 0x4000_0000 * descriptor.send_mode;
    seq![
        RESPONSE_SYNC_1,
        RESPONSE_SYNC_2,
        (word % 0x100) as u8,
        (word / 0x100 % 0x100) as u8,
        (word / 0x1_0000 % 0x100) as u8,
        (word / 0x100_0000 % 0x100) as u8,
        descriptor.data_type,
    ]
}

impl ResponseDescriptor {
    /// The length fits 30 bits and the send mode 2 bits.
    pub open spec fn wf(&self) -> bool {
        self.len < 0x4000_0000 && self.send_mode < 4
    }

    /// The seven bytes that stand for the descriptor; `None` where the
    /// length or the send mode does not fit its bits.
    pub fn encode(&self) -> (bytes: Option<[u8; 7]>)
        ensures
            self.wf() ==> (bytes matches Some(b) && b@ == descriptor_bytes(*self)),
            !self.wf() ==> bytes is None,
    {
        if self.len >= 0x4000_0000 || self.send_mode >= 4 {
            return None;
        }
        let word: u32 = self.len + 0x4000_0000 * (self.send_mode as u32);
        let b = [
            RESPONSE_SYNC_1,
            RESPONSE_SYNC_2,
            (word % 0x100) as u8,
            (word / 0x100 % 0x100) as u8,
            (word / 0x1_0000 % 0x100) as u8,
            (word / 0x100_0000 % 0x100) as u8,
            self.data_type,
        ];
        assert(b@ =~= descriptor_bytes(*self));
        Some(b)
    }
}

/// Decodes the seven bytes of a response descriptor. Bytes that do not
/// begin with the sync sequence are handed back as corrupted.
pub fn decode_descriptor(bytes: &[u8; 7]) -> (result: Result<ResponseDescriptor, RxError>)
    ensures
        has_sync(bytes@) ==> result == Ok::<ResponseDescriptor, RxError>(descriptor_of(bytes@)),
        !has_sync(bytes@) ==> result == Err::<ResponseDescriptor, RxError>(
            RxError::Corrupted(*bytes),
        ),
        result matches Ok(descriptor) ==> descriptor.wf(),
{
    if bytes[0] != RESPONSE_SYNC_1 || bytes[1] != RESPONSE_SYNC_2 {
        return Err(RxError::Corrupted(*bytes));
    }
    let mut word_bytes: &[u8] = slice_subrange(bytes.as_slice(), 2, 6);
    let word: u32 = read_le_u32(&mut word_bytes);
    let len: u32 = word % 0x4000_0000;
    let send_mode: u8 = (word / 0x4000_0000) as u8;
    Ok(ResponseDescriptor { len, send_mode, data_type: bytes[6] })
}

/// Encoding a descriptor whose fields fit their bits and decoding the bytes
/// gives the descriptor back.
pub proof fn lemma_descriptor_round_trip(descriptor: ResponseDescriptor)
    requires
        descriptor.wf(),
    ensures
        has_sync(descriptor_bytes(descriptor)),
        descriptor_of(descriptor_bytes(descriptor)) == descriptor,
{
    let bytes = descriptor_bytes(descriptor);
    assert(bytes.subrange(2, 6) =~= seq![bytes[2], bytes[3], bytes[4], bytes[5]]);
}

} // verus!
