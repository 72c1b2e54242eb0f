//! The scan stream decoder as a state machine.
//!
//! The decoder never reads by itself. It says how many bytes it wants next,
//! takes what the read gave, and answers with what to do: wait for the
//! device to settle, hand samples on, or stop.

use crate::cmd::SlLidarAnsType;
use crate::frame::{descriptor_bytes, ResponseDescriptor};
use crate::scan::{
    check_capsules, decode_batch, emitted, malformed_capsules_upto, malformed_upto, seeking_after,
    Sample, CAPSULE_LEN, RECORD_LEN,
};
use vstd::prelude::*;

verus! {

/// Baud rate of the supported device.
pub const S1_BAUD: usize = 256000;

/// Length of a response descriptor.
pub const DESCRIPTOR_LEN: usize = 7;

/// Time in milliseconds that the device needs to reach a steady rotation
/// after it has announced the stream.
pub const SETTLE_MILLIS: u64 = 1000;

/// The two framings of the sample stream.
#[derive(Debug, Clone, Copy, PartialEq, Eq, Structural)]
pub enum ScanMode {
    /// Five-byte records, one sample each.
    Plain,
    /// 84-byte capsules of forty cabins each.
    Dense,
}

/// Why a decoder stopped.
#[derive(Debug, Clone, Copy, PartialEq, Eq, Structural)]
pub enum StopReason {
    /// The device did not announce the stream with the expected descriptor.
    DescriptorMismatch,
    /// A read failed after the session had been told to stop.
    Cancelled,
    /// A read failed while the session was meant to go on.
    Fault,
}

/// Where a decoder stands.
#[derive(Debug, Clone, Copy, PartialEq, Eq, Structural)]
pub enum Phase {
    /// The stream descriptor has not arrived yet.
    AwaitingDescriptor,
    /// The descriptor was accepted; batches are being decoded.
    Running,
    /// The decoder has stopped for good.
    Stopped(StopReason),
}

/// What a read gave.
#[derive(Debug, Clone)]
pub enum StreamEvent {
    /// The bytes that were asked for.
    Received(Vec<u8>),
    /// The read failed; `cancelled` is the cancellation flag as it stood
    /// when the failure was seen.
    ReadFailed { cancelled: bool },
}

/// What the caller of a decoder does next.
#[derive(Debug, Clone)]
pub enum StreamAction {
    /// Wait this many milliseconds before the next read.
    Settle { millis: u64 },
    /// Hand these samples on, in this order. `rejected` malformed records
    /// or capsules were skipped.
    Emit { samples: Vec<Sample>, rejected: usize },
    /// End the session.
    Stop(StopReason),
}

/// The state of one scan stream.
#[derive(Debug, Clone, Copy, PartialEq, Eq, Structural)]
pub struct StreamDecoder {
    pub mode: ScanMode,
    pub phase: Phase,
    /// Whether samples are still held back until a rotation starts.
    pub seeking: bool,
}

/// The fixed descriptor that announces the stream of a mode.
pub open spec fn stream_descriptor(mode: ScanMode) -> Seq<u8> {
    match mode {
        ScanMode::Plain => seq![0xA5u8, 0x5A, 0x05, 0x00, 0x00, 0x40, 0x81],
        ScanMode::Dense => seq![0xA5u8, 0x5A, 0x54, 0x00, 0x00, 0x40, 0x85],
    }
}

/// The descriptor that announces a stream, as a descriptor reads: the
/// payload is one record or one capsule long, the send mode says that many
/// responses follow, and the data type names the kind of measurement.
pub open spec fn stream_announcement(mode: ScanMode) -> ResponseDescriptor {
    match mode {
        ScanMode::Plain => ResponseDescriptor {
            len: RECORD_LEN as u32,
            send_mode: 1,
            data_type: SlLidarAnsType::Measurement.spec_code(),
        },
        ScanMode::Dense => ResponseDescriptor {
            len: CAPSULE_LEN as u32,
            send_mode: 1,
            data_type: SlLidarAnsType::MeasurementDenseCapsuled.spec_code(),
        },
    }
}

/// The fixed bytes that announce a stream are the encoding of its
/// announcement.
pub proof fn lemma_stream_descriptor_encodes_announcement(mode: ScanMode)
    ensures
        stream_announcement(mode).wf(),
        stream_descriptor(mode) == descriptor_bytes(stream_announcement(mode)),
{
    assert(stream_descriptor(mode) =~= descriptor_bytes(stream_announcement(mode)));
}

/// The number of bytes of one batch read: the 512 records that a
/// five-hundredth of the baud rate counts, or the 30 whole capsules that fit
/// a hundredth of it.
pub open spec fn spec_batch_len(mode: ScanMode) -> usize {
    match mode {
        ScanMode::Plain => 2560,
        ScanMode::Dense => 2520,
    }
}

/// The number of bytes of one batch read.
#[verifier::when_used_as_spec(spec_batch_len)]
pub fn batch_len(mode: ScanMode) -> (len: usize)
    ensures
        len == spec_batch_len(mode),
{
    match mode {
        ScanMode::Plain => RECORD_LEN * (S1_BAUD / 500),
        ScanMode::Dense => CAPSULE_LEN * (S1_BAUD / (100 * CAPSULE_LEN)),
    }
}

/// Whether `bytes` is the descriptor that announces the stream of `mode`.
pub fn is_stream_descriptor(mode: ScanMode, bytes: &[u8]) -> (ok: bool)
    ensures
        ok == (bytes@ == stream_descriptor(mode)),
{
    if bytes.len() != DESCRIPTOR_LEN {
        return false;
    }
    let (len_byte, type_byte): (u8, u8) = match mode {
        ScanMode::Plain => (0x05, 0x81),
        ScanMode::Dense => (0x54, 0x85),
    };
    let ok = bytes[0] == 0xA5 && bytes[1] == 0x5A && bytes[2] == len_byte && bytes[3] == 0x00
        && bytes[4] == 0x00 && bytes[5] == 0x40 && bytes[6] == type_byte;
    assert(ok == (bytes@ =~= stream_descriptor(mode)));
    ok
}

/// The reason with which a failed read ends the stream.
pub open spec fn failure_reason(cancelled: bool) -> StopReason {
    if cancelled {
        StopReason::Cancelled
    } else {
        StopReason::Fault
    }
}

impl StreamDecoder {
    /// A decoder that waits for the stream descriptor and will seek the
    /// first start.
    pub fn new(mode: ScanMode) -> (decoder: StreamDecoder)
        ensures
            decoder == (StreamDecoder { mode, phase: Phase::AwaitingDescriptor, seeking: true }),
    {
        StreamDecoder { mode, phase: Phase::AwaitingDescriptor, seeking: true }
    }

    /// The number of bytes the decoder wants read next; `None` once it has
    /// stopped.
    pub open spec fn spec_pending_read(&self) -> Option<usize> {
        match self.phase {
            Phase::AwaitingDescriptor => Some(DESCRIPTOR_LEN),
            Phase::Running => Some(spec_batch_len(self.mode)),
            Phase::Stopped(_) => None,
        }
    }

    /// The number of bytes the decoder wants read next; `None` once it has
    /// stopped.
    #[verifier::when_used_as_spec(spec_pending_read)]
    pub fn pending_read(&self) -> (len: Option<usize>)
        ensures
            len == self.spec_pending_read(),
    {
        match self.phase {
            Phase::AwaitingDescriptor => Some(DESCRIPTOR_LEN),
            Phase::Running => Some(batch_len(self.mode)),
            Phase::Stopped(_) => None,
        }
    }

    /// Takes what a read gave and says what to do next.
    ///
    /// A stopped decoder stays as it is. A failed read stops the decoder:
    /// as cancelled if the cancellation flag was set, as a fault otherwise.
    /// The first bytes must be the stream descriptor of the mode, or the
    /// decoder stops; if they are, the caller waits for the device to
    /// settle. Every later read is a batch: in the plain mode its
    /// well-formed records become samples, held back until the first start;
    /// in the dense mode its capsules are checked and no sample is made.
    pub fn step(&mut self, event: StreamEvent) -> (action: StreamAction)
        ensures
            final(self).mode == old(self).mode,
            old(self).phase matches Phase::Stopped(reason) ==> {
                &&& *final(self) == *old(self)
                &&& action == StreamAction::Stop(reason)
            },
            !(old(self).phase is Stopped) ==> (event matches StreamEvent::ReadFailed {
                cancelled,
            } ==> {
                &&& final(self).phase == Phase::Stopped(failure_reason(cancelled))
                &&& final(self).seeking == old(self).seeking
                &&& action == StreamAction::Stop(failure_reason(cancelled))
            }),
            old(self).phase is AwaitingDescriptor ==> (event matches StreamEvent::Received(
                bytes,
            ) ==> {
                &&& final(self).seeking == old(self).seeking
                &&& bytes@ == stream_descriptor(old(self).mode) ==> {
                    &&& final(self).phase == Phase::Running
                    &&& action == (StreamAction::Settle { millis: SETTLE_MILLIS })
                }
                &&& bytes@ != stream_descriptor(old(self).mode) ==> {
                    &&& final(self).phase == Phase::Stopped(StopReason::DescriptorMismatch)
                    &&& action == StreamAction::Stop(StopReason::DescriptorMismatch)
                }
            }),
            old(self).phase is Running ==> (event matches StreamEvent::Received(bytes) ==> {
                &&& final(self).phase == Phase::Running
                &&& action matches StreamAction::Emit { samples, rejected }
                &&& old(self).mode == ScanMode::Plain ==> {
                    &&& samples@ == emitted(old(self).seeking, bytes@)
                    &&& rejected == malformed_upto(bytes@, bytes@.len() / RECORD_LEN as nat)
                    &&& final(self).seeking == seeking_after(old(self).seeking, bytes@)
                }
                &&& old(self).mode == ScanMode::Dense ==> {
                    &&& samples@.len() == 0
                    &&& rejected == malformed_capsules_upto(
                        bytes@,
                        bytes@.len() / CAPSULE_LEN as nat,
                    )
                    &&& final(self).seeking == old(self).seeking
                }
            }),
    {
        match self.phase {
            Phase::Stopped(reason) => StreamAction::Stop(reason),
            Phase::AwaitingDescriptor => match event {
                StreamEvent::ReadFailed { cancelled } => self.fail(cancelled),
                StreamEvent::Received(bytes) => {
                    if is_stream_descriptor(self.mode, bytes.as_slice()) {
                        self.phase = Phase::Running;
                        StreamAction::Settle { millis: SETTLE_MILLIS }
                    } else {
                        self.phase = Phase::Stopped(StopReason::DescriptorMismatch);
                        StreamAction::Stop(StopReason::DescriptorMismatch)
                    }
                },
            },
            Phase::Running => match event {
                StreamEvent::ReadFailed { cancelled } => self.fail(cancelled),
                StreamEvent::Received(bytes) => match self.mode {
                    ScanMode::Plain => {
                        let batch = decode_batch(self.seeking, bytes.as_slice());
                        self.seeking = batch.seeking;
                        StreamAction::Emit { samples: batch.samples, rejected: batch.rejected }
                    },
                    ScanMode::Dense => {
                        let rejected = check_capsules(bytes.as_slice());
                        StreamAction::Emit { samples: Vec::new(), rejected }
                    },
                },
            },
        }
    }

    /// Stops the decoder after a failed read.
    fn fail(&mut self, cancelled: bool) -> (action: StreamAction)
        ensures
            final(self).mode == old(self).mode,
            final(self).seeking == old(self).seeking,
            final(self).phase == Phase::Stopped(failure_reason(cancelled)),
            action == StreamAction::Stop(failure_reason(cancelled)),
    {
        let reason = if cancelled {
            StopReason::Cancelled
        } else {
            StopReason::Fault
        };
        self.phase = Phase::Stopped(reason);
        StreamAction::Stop(reason)
    }
}

} // verus!
