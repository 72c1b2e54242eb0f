//! Scan stream decoder: sample records, dense capsules and the state machine
//! that turns the raw byte stream of a scan into samples.

use crate::frame::{checksum, xor_fold};
use vstd::prelude::*;
use vstd::slice::slice_subrange;

verus! {

/// Length in bytes of one sample record of the plain stream.
pub const RECORD_LEN: usize = 5;

/// Length in bytes of one capsule of the dense stream.
pub const CAPSULE_LEN: usize = 84;

/// One measurement: whether it opens a new rotation, the signal strength
/// (6 bits), the angle and the distance in quarter millimetres divided by
/// four, that is in millimetres.
#[derive(Debug, Clone, Copy, PartialEq, Eq, Structural)]
pub struct Sample {
    pub start: bool,
    pub intensity: u8,
    pub angle: u16,
    pub distance: u16,
}

/// One capsule of the dense stream, once its cabins are taken apart.
#[derive(Debug, Clone, Copy)]
pub struct DenseSample {
    pub start: bool,
    pub angle: u16,
    pub cabin: [u16; 40],
}

/// A record is well formed when it has five bytes, the two lowest bits of
/// its first byte differ (the sync bit and its inverse), and the lowest bit
/// of its second byte, the check bit, is set.
pub open spec fn record_well_formed(record: Seq<u8>) -> bool {
    &&& record.len() == RECORD_LEN
    &&& (record[0] % 4 == 1 || record[0] % 4 == 2)
    &&& record[1] % 2 == 1
}

/// The sample that a five-byte record holds: the start flag is bit 0 of
/// byte 0, the intensity the upper six bits of byte 0, the angle byte 2
/// shifted left by one with the top bit of byte 1 below it, the distance the
/// little-endian word of bytes 3 and 4 divided by four.
pub open spec fn record_sample(record: Seq<u8>) -> Sample {
    Sample {
        start: record[0] % 2 == 1,
        intensity: (record[0] / 4) as u8,
        angle: (2 * record[2] + record[1] / 128) as u16,
        distance: ((256 * record[4] + record[3]) / 4) as u16,
    }
}

/// Decodes one record of the plain stream. A malformed record yields `None`.
pub fn decode_sample(record: &[u8]) -> (sample: Option<Sample>)
    ensures
        sample == if record_well_formed(record@) {
            Some(record_sample(record@))
        } else {
            None
        },
{
    if record.len() != RECORD_LEN {
        return None;
    }
    let b0: u8 = record[0];
    let b1: u8 = record[1];
    let b2: u8 = record[2];
    let b3: u8 = record[3];
    let b4: u8 = record[4];
    let sync: u8 = b0 & 0b11;
    let check: u8 = b1 & 0b01;
    assert(sync == b0 % 4 && check == b1 % 2) by (bit_vector)
        requires
            sync == b0 & 0b11,
            check == b1 & 0b01,
    ;
    if sync == 0b11 || sync == 0b00 || check != 1 {
        return None;
    }
    let start: bool = (b0 & 1) != 0;
    let intensity: u8 = b0 >> 2;
    let angle: u16 = ((b2 as u16) << 1) | (b1 as u16 >> 7);
    let word: u16 = ((b4 as u16) << 8) | b3 as u16;
    let distance: u16 = word / 4;
    assert(start == (b0 % 2 == 1) && intensity == b0 / 4) by (bit_vector)
        requires
            start == ((b0 & 1) != 0),
            intensity == b0 >> 2,
    ;
    let ghost b1w: u16 = b1 as u16;
    let ghost b2w: u16 = b2 as u16;
    let ghost b3w: u16 = b3 as u16;
    let ghost b4w: u16 = b4 as u16;
    assert(angle == 2 * b2w + b1w / 128 && word == 256 * b4w + b3w) by (bit_vector)
        requires
            angle == (b2w << 1) | (b1w >> 7),
            word == (b4w << 8) | b3w,
            b1w < 256,
            b2w < 256,
            b3w < 256,
            b4w < 256,
    ;
    Some(Sample { start, intensity, angle, distance })
}

/// A dense capsule is well formed when the upper halves of its first two
/// bytes are `0xA` and `0x5` and their lower halves, the second above the
/// first, equal the XOR of all bytes that follow.
pub open spec fn capsule_well_formed(msg: Seq<u8>) -> bool {
    &&& msg.len() >= 2
    &&& msg[0] / 16 == 0xA
    &&& msg[1] / 16 == 0x5
    &&& xor_fold(msg.skip(2)) == 16 * (msg[1] % 16) + msg[0] % 16
}

/// Checks the sync halves and the checksum of a dense capsule.
pub fn validate_dense(msg: &[u8]) -> (ok: bool)
    requires
        msg@.len() >= 2,
    ensures
        ok == capsule_well_formed(msg@),
{
    let b0: u8 = msg[0];
    let b1: u8 = msg[1];
    let hi0: u8 = b0 >> 4;
    let hi1: u8 = b1 >> 4;
    let expected: u8 = (b1 << 4) | (b0 & 0b1111);
    assert(hi0 == b0 / 16 && hi1 == b1 / 16 && expected == 16 * (b1 % 16) + b0 % 16)
        by (bit_vector)
        requires
            hi0 == b0 >> 4,
            hi1 == b1 >> 4,
            expected == (b1 << 4) | (b0 & 0b1111),
    ;
    let body = slice_subrange(msg, 2, msg.len());
    assert(body@ =~= msg@.skip(2));
    hi0 == 0xa && hi1 == 0x5 && checksum(body) == expected
}

/// The `i`-th whole record of a plain stream.
pub open spec fn record_at(bytes: Seq<u8>, i: int) -> Seq<u8> {
    bytes.subrange(RECORD_LEN * i, RECORD_LEN * i + RECORD_LEN)
}

/// The samples of the well-formed records among the first `n` whole records
/// of `bytes`, in order of arrival.
pub open spec fn samples_upto(bytes: Seq<u8>, n: nat) -> Seq<Sample>
    decreases n,
{
    if n == 0 {
        Seq::empty()
    } else if record_well_formed(record_at(bytes, n - 1)) {
        samples_upto(bytes, (n - 1) as nat).push(record_sample(record_at(bytes, n - 1)))
    } else {
        samples_upto(bytes, (n - 1) as nat)
    }
}

/// The number of malformed records among the first `n` whole records.
pub open spec fn malformed_upto(bytes: Seq<u8>, n: nat) -> nat
    decreases n,
{
    if n == 0 {
        0
    } else if record_well_formed(record_at(bytes, n - 1)) {
        malformed_upto(bytes, (n - 1) as nat)
    } else {
        malformed_upto(bytes, (n - 1) as nat) + 1
    }
}

/// The samples of all well-formed whole records of `bytes`, in order of
/// arrival. Bytes after the last whole record are not looked at.
pub open spec fn valid_samples(bytes: Seq<u8>) -> Seq<Sample> {
    samples_upto(bytes, bytes.len() / RECORD_LEN as nat)
}

/// `samples` from its first sample that opens a rotation; empty where none
/// does.
pub open spec fn from_first_start(samples: Seq<Sample>) -> Seq<Sample>
    decreases samples.len(),
{
    if samples.len() == 0 {
        samples
    } else if samples[0].start {
        samples
    } else {
        from_first_start(samples.drop_first())
    }
}

/// What a decoder hands on for the bytes of one read. While it is seeking
/// it holds back every sample before the first that opens a rotation;
/// afterwards it hands on every well-formed sample.
pub open spec fn emitted(seeking: bool, bytes: Seq<u8>) -> Seq<Sample> {
    if seeking {
        from_first_start(valid_samples(bytes))
    } else {
        valid_samples(bytes)
    }
}

/// Whether a decoder is still seeking after the bytes of one read: it was
/// seeking before, and has handed on nothing.
pub open spec fn seeking_after(seeking: bool, bytes: Seq<u8>) -> bool {
    seeking && emitted(seeking, bytes).len() == 0
}

/// Appending one sample to a sequence appends it to what follows the first
/// start, or begins that part if the sample is the first start.
pub proof fn lemma_from_first_start_push(samples: Seq<Sample>, next: Sample)
    ensures
        from_first_start(samples.push(next)) == if from_first_start(samples).len() > 0 {
            from_first_start(samples).push(next)
        } else if next.start {
            seq![next]
        } else {
            Seq::empty()
        },
    decreases samples.len(),
{
    if samples.len() == 0 {
        let one = samples.push(next);
        assert(one =~= seq![next]);
        assert(one.drop_first() =~= Seq::<Sample>::empty());
        assert(from_first_start(one.drop_first()) == one.drop_first());
    } else if samples[0].start {
        assert(samples.push(next)[0] == samples[0]);
    } else {
        assert(samples.push(next).drop_first() =~= samples.drop_first().push(next));
        lemma_from_first_start_push(samples.drop_first(), next);
    }
}

/// What decoding the bytes of one read gives.
#[derive(Debug, Clone)]
pub struct Batch {
    /// The samples to hand on, in order of arrival.
    pub samples: Vec<Sample>,
    /// The number of malformed records that were skipped.
    pub rejected: usize,
    /// Whether the decoder is still waiting for the first start.
    pub seeking: bool,
}

/// Decodes the whole records of one read of the plain stream.
///
/// Malformed records are counted and skipped. While `seeking`, samples are
/// held back until the first that opens a rotation.
pub fn decode_batch(seeking: bool, data: &[u8]) -> (batch: Batch)
    ensures
        batch.samples@ == emitted(seeking, data@),
        batch.seeking == seeking_after(seeking, data@),
        batch.rejected == malformed_upto(data@, data@.len() / RECORD_LEN as nat),
{
    let n: usize = data.len() / RECORD_LEN;
    let mut samples: Vec<Sample> = Vec::new();
    let mut rejected: usize = 0;
    let mut still: bool = seeking;
    let mut i: usize = 0;
    while i < n
        invariant
            i <= n,
            n == data@.len() / RECORD_LEN as nat,
            n * RECORD_LEN <= data@.len() <= usize::MAX,
            rejected == malformed_upto(data@, i as nat),
            rejected <= i,
            samples@ == if seeking {
                from_first_start(samples_upto(data@, i as nat))
            } else {
                samples_upto(data@, i as nat)
            },
            still == (seeking && samples@.len() == 0),
        decreases n - i,
    {
        let record = slice_subrange(data, i * RECORD_LEN, i * RECORD_LEN + RECORD_LEN);
        assert(record@ =~= record_at(data@, i as int));
        proof {
            if record_well_formed(record@) {
                lemma_from_first_start_push(samples_upto(data@, i as nat), record_sample(record@));
            }
        }
        match decode_sample(record) {
            None => {
                rejected = rejected + 1;
            },
            Some(sample) => {
                if !(still && !sample.start) {
                    still = false;
                    samples.push(sample);
                }
            },
        }
        i = i + 1;
    }
    Batch { samples, rejected, seeking: still }
}

/// The `i`-th whole capsule of a dense stream.
pub open spec fn capsule_at(bytes: Seq<u8>, i: int) -> Seq<u8> {
    bytes.subrange(CAPSULE_LEN * i, CAPSULE_LEN * i + CAPSULE_LEN)
}

/// The number of malformed capsules among the first `n` whole capsules.
pub open spec fn malformed_capsules_upto(bytes: Seq<u8>, n: nat) -> nat
    decreases n,
{
    if n == 0 {
        0
    } else if capsule_well_formed(capsule_at(bytes, n - 1)) {
        malformed_capsules_upto(bytes, (n - 1) as nat)
    } else {
        malformed_capsules_upto(bytes, (n - 1) as nat) + 1
    }
}

/// Checks the whole capsules of one read of the dense stream and counts the
/// malformed ones. Taking the cabins of a capsule apart is not supported.
pub fn check_capsules(data: &[u8]) -> (rejected: usize)
    ensures
        rejected == malformed_capsules_upto(data@, data@.len() / CAPSULE_LEN as nat),
{
    let n: usize = data.len() / CAPSULE_LEN;
    let mut rejected: usize = 0;
    let mut i: usize = 0;
    while i < n
        invariant
            i <= n,
            n == data@.len() / CAPSULE_LEN as nat,
            n * CAPSULE_LEN <= data@.len() <= usize::MAX,
            rejected == malformed_capsules_upto(data@, i as nat),
            rejected <= i,
        decreases n - i,
    {
        let capsule = slice_subrange(data, i * CAPSULE_LEN, i * CAPSULE_LEN + CAPSULE_LEN);
        assert(capsule@ =~= capsule_at(data@, i as int));
        if !validate_dense(capsule) {
            rejected = rejected + 1;
        }
        i = i + 1;
    }
    rejected
}

/// Whether no sample of `samples` opens a rotation.
pub open spec fn no_start(samples: Seq<Sample>) -> bool {
    forall|i: int| 0 <= i < samples.len() ==> !(#[trigger] samples[i]).start
}

/// What follows the first start of two sequences laid end to end: if the
/// first sequence holds a start, that part of it and all of the second;
/// if not, that part of the second.
pub proof fn lemma_from_first_start_concat(first: Seq<Sample>, second: Seq<Sample>)
    ensures
        from_first_start(first + second) == if from_first_start(first).len() > 0 {
            from_first_start(first) + second
        } else {
            from_first_start(second)
        },
    decreases first.len(),
{
    if first.len() == 0 {
        assert(first + second =~= second);
    } else if first[0].start {
        assert((first + second)[0] == first[0]);
    } else {
        assert((first + second).drop_first() =~= first.drop_first() + second);
        lemma_from_first_start_concat(first.drop_first(), second);
    }
}

/// A sequence without a start has nothing after its first start, and a
/// sequence that begins with a start is kept whole.
pub proof fn lemma_from_first_start_ends(samples: Seq<Sample>)
    ensures
        no_start(samples) ==> from_first_start(samples).len() == 0,
        samples.len() > 0 && samples[0].start ==> from_first_start(samples) == samples,
    decreases samples.len(),
{
    if samples.len() > 0 && !samples[0].start {
        if no_start(samples) {
            assert forall|i: int| 0 <= i < samples.drop_first().len() implies !(
            #[trigger] samples.drop_first()[i]).start by {
                assert(samples.drop_first()[i] == samples[i + 1]);
            }
        }
        lemma_from_first_start_ends(samples.drop_first());
    }
}

/// The first `n` records of a stream are not touched by what follows them.
proof fn lemma_samples_upto_prefix(first: Seq<u8>, second: Seq<u8>, n: nat)
    requires
        n * RECORD_LEN <= first.len(),
    ensures
        samples_upto(first + second, n) == samples_upto(first, n),
        malformed_upto(first + second, n) == malformed_upto(first, n),
    decreases n,
{
    if n > 0 {
        lemma_samples_upto_prefix(first, second, (n - 1) as nat);
        assert(record_at(first + second, n - 1) =~= record_at(first, n - 1));
    }
}

/// Behind a whole number of records, the records of what follows are
/// decoded as they would be alone.
proof fn lemma_samples_upto_concat(first: Seq<u8>, second: Seq<u8>, n: nat)
    requires
        first.len() % RECORD_LEN as nat == 0,
        n * RECORD_LEN <= second.len(),
    ensures
        samples_upto(first + second, first.len() / RECORD_LEN as nat + n) == valid_samples(first)
            + samples_upto(second, n),
        malformed_upto(first + second, first.len() / RECORD_LEN as nat + n) == malformed_upto(
            first,
            first.len() / RECORD_LEN as nat,
        ) + malformed_upto(second, n),
    decreases n,
{
    let whole = first.len() / RECORD_LEN as nat;
    if n == 0 {
        lemma_samples_upto_prefix(first, second, whole);
        assert(valid_samples(first) + samples_upto(second, 0) =~= valid_samples(first));
    } else {
        lemma_samples_upto_concat(first, second, (n - 1) as nat);
        assert(record_at(first + second, whole + n - 1) =~= record_at(second, n - 1));
        let before = samples_upto(second, (n - 1) as nat);
        if record_well_formed(record_at(second, n - 1)) {
            let sample = record_sample(record_at(second, n - 1));
            assert((valid_samples(first) + before).push(sample) =~= valid_samples(first)
                + before.push(sample));
        }
    }
}

/// The samples of two reads laid end to end, the first a whole number of
/// records long, are the samples of the first followed by those of the
/// second; the malformed records add up.
pub proof fn lemma_valid_samples_concat(first: Seq<u8>, second: Seq<u8>)
    requires
        first.len() % RECORD_LEN as nat == 0,
    ensures
        valid_samples(first + second) == valid_samples(first) + valid_samples(second),
        malformed_upto(first + second, (first + second).len() / RECORD_LEN as nat)
            == malformed_upto(first, first.len() / RECORD_LEN as nat) + malformed_upto(
            second,
            second.len() / RECORD_LEN as nat,
        ),
{
    let n = second.len() / RECORD_LEN as nat;
    assert((first + second).len() / RECORD_LEN as nat == first.len() / RECORD_LEN as nat + n);
    lemma_samples_upto_concat(first, second, n);
}

/// Decoding read by read gives what decoding the whole stream at once
/// gives: the samples handed on for two reads laid end to end are those of
/// the first read followed by those of the second, decoded in the state in
/// which the first read left the decoder.
pub proof fn lemma_emitted_concat(seeking: bool, first: Seq<u8>, second: Seq<u8>)
    requires
        first.len() % RECORD_LEN as nat == 0,
    ensures
        emitted(seeking, first + second) == emitted(seeking, first) + emitted(
            seeking_after(seeking, first),
            second,
        ),
        seeking_after(seeking, first + second) == seeking_after(
            seeking_after(seeking, first),
            second,
        ),
{
    lemma_valid_samples_concat(first, second);
    if seeking {
        lemma_from_first_start_concat(valid_samples(first), valid_samples(second));
        if from_first_start(valid_samples(first)).len() == 0 {
            assert(emitted(seeking, first) + emitted(true, second) =~= emitted(true, second));
        }
    }
}

/// A malformed record leaves no trace in the samples: the stream with the
/// record gives the same samples as the stream without it.
pub proof fn lemma_malformed_record_is_skipped(
    seeking: bool,
    before: Seq<u8>,
    record: Seq<u8>,
    after: Seq<u8>,
)
    requires
        before.len() % RECORD_LEN as nat == 0,
        record.len() == RECORD_LEN,
        !record_well_formed(record),
    ensures
        emitted(seeking, before + record + after) == emitted(seeking, before + after),
        seeking_after(seeking, before + record + after) == seeking_after(seeking, before + after),
{
    assert(record_at(record, 0) =~= record);
    assert(samples_upto(record, 1) =~= Seq::<Sample>::empty()) by {
        reveal_with_fuel(samples_upto, 2);
    }
    assert(valid_samples(record).len() == 0);
    lemma_valid_samples_concat(before, record);
    lemma_valid_samples_concat(before + record, after);
    lemma_valid_samples_concat(before, after);
    assert(valid_samples(before + record + after) =~= valid_samples(before + after));
}

/// A seeking decoder hands on nothing of the records that come before the
/// first start, and everything well formed from the first start onward:
/// if no well-formed record of `before` opens a rotation and the first
/// record of `after` is well formed and opens one, the samples handed on
/// for the two laid end to end are all the samples of `after`, in order.
pub proof fn lemma_seeking_emits_from_first_start(before: Seq<u8>, after: Seq<u8>)
    requires
        before.len() % RECORD_LEN as nat == 0,
        no_start(valid_samples(before)),
        after.len() >= RECORD_LEN,
        record_well_formed(record_at(after, 0)),
        record_sample(record_at(after, 0)).start,
    ensures
        emitted(true, before).len() == 0,
        emitted(true, before + after) == valid_samples(after),
        !seeking_after(true, before + after),
{
    lemma_from_first_start_ends(valid_samples(before));
    lemma_emitted_concat(true, before, after);
    lemma_first_sample(after);
    lemma_from_first_start_ends(valid_samples(after));
    assert(emitted(true, before) + emitted(true, after) =~= emitted(true, after));
}

/// A seeking decoder that sees no start hands on nothing and keeps seeking.
pub proof fn lemma_seeking_without_start(bytes: Seq<u8>)
    requires
        no_start(valid_samples(bytes)),
    ensures
        emitted(true, bytes).len() == 0,
        seeking_after(true, bytes),
{
    lemma_from_first_start_ends(valid_samples(bytes));
}

/// Where the first record of a stream is well formed, its sample is the
/// first of the stream's samples.
proof fn lemma_first_sample(bytes: Seq<u8>)
    requires
        bytes.len() >= RECORD_LEN,
        record_well_formed(record_at(bytes, 0)),
    ensures
        valid_samples(bytes).len() > 0,
        valid_samples(bytes)[0] == record_sample(record_at(bytes, 0)),
{
    let n = bytes.len() / RECORD_LEN as nat;
    lemma_first_sample_upto(bytes, n);
}

/// The same, for the first `n` records.
proof fn lemma_first_sample_upto(bytes: Seq<u8>, n: nat)
    requires
        n >= 1,
        record_well_formed(record_at(bytes, 0)),
    ensures
        samples_upto(bytes, n).len() > 0,
        samples_upto(bytes, n)[0] == record_sample(record_at(bytes, 0)),
    decreases n,
{
    if n == 1 {
        reveal_with_fuel(samples_upto, 2);
    } else {
        lemma_first_sample_upto(bytes, (n - 1) as nat);
    }
}

} // verus!
