//! The scan session controller.
//!
//! The controller holds what the driver knows of a session: whether a scan
//! is running, whether a reader is attached to the transport, and whether
//! the session has been told to stop. It owns no transport and starts no
//! thread: it gives the bytes of each command and records what happened.

use crate::cmd::SlLidarCmd;
use crate::decoder::{ScanMode, StreamDecoder};
use crate::frame::{encode_request, request_frame};
use vstd::prelude::*;

verus! {

/// States of the device as the driver tracks them. Only `Idle` and
/// `Scanning` are entered by the controller; the others are reserved.
#[derive(Debug, Clone, Copy, PartialEq, Eq, Structural)]
pub enum LidarState {
    Idle,
    Processing,
    Scanning,
    ProtectionStop,
}

/// The controller of one device.
#[derive(Debug)]
pub struct Lidar {
    state: LidarState,
    nuke: bool,
    attached: bool,
}

/// The payload of the command that starts a dense scan: the working mode
/// and four reserved bytes, all zero.
pub open spec fn dense_scan_body() -> Seq<u8> {
    seq![0u8, 0u8, 0u8, 0u8, 0u8]
}

/// The bytes of the command that starts a scan in `mode`.
pub open spec fn scan_frame(mode: ScanMode) -> Seq<u8> {
    match mode {
        ScanMode::Plain => request_frame(SlLidarCmd::Scan.spec_opcode(), None),
        ScanMode::Dense => request_frame(
            SlLidarCmd::ExpressScan.spec_opcode(),
            Some(dense_scan_body()),
        ),
    }
}

/// The bytes of the command that ends a scan: a reset if `reset`, a stop
/// otherwise.
pub open spec fn stop_frame(reset: bool) -> Seq<u8> {
    if reset {
        request_frame(SlLidarCmd::Reset.spec_opcode(), None)
    } else {
        request_frame(SlLidarCmd::Stop.spec_opcode(), None)
    }
}

impl Lidar {
    /// The state of the session.
    pub closed spec fn spec_state(&self) -> LidarState {
        self.state
    }

    /// Whether the session has been told to stop.
    pub closed spec fn spec_cancel_requested(&self) -> bool {
        self.nuke
    }

    /// Whether a reader is attached to the transport.
    pub closed spec fn spec_reader_attached(&self) -> bool {
        self.attached
    }

    /// What holds of every controller: it is idle or scanning, and while it
    /// scans a reader is attached.
    pub open spec fn wf(&self) -> bool {
        ||| self.spec_state() == LidarState::Idle
        ||| self.spec_state() == LidarState::Scanning && self.spec_reader_attached()
    }

    /// The controller of a device that has just been opened: idle, no
    /// reader attached, not told to stop.
    pub fn init() -> (lidar: Lidar)
        ensures
            lidar.wf(),
            lidar.spec_state() == LidarState::Idle,
            !lidar.spec_cancel_requested(),
            !lidar.spec_reader_attached(),
    {
        Lidar { state: LidarState::Idle, nuke: false, attached: false }
    }

    /// The state of the session.
    #[verifier::when_used_as_spec(spec_state)]
    pub fn state(&self) -> (state: LidarState)
        ensures
            state == self.spec_state(),
    {
        self.state
    }

    /// Whether the session has been told to stop. The reader looks at this
    /// when a read fails, and at no other time.
    #[verifier::when_used_as_spec(spec_cancel_requested)]
    pub fn cancel_requested(&self) -> (flag: bool)
        ensures
            flag == self.spec_cancel_requested(),
    {
        self.nuke
    }

    /// Whether a reader is attached to the transport.
    #[verifier::when_used_as_spec(spec_reader_attached)]
    pub fn reader_attached(&self) -> (attached: bool)
        ensures
            attached == self.spec_reader_attached(),
    {
        self.attached
    }

    /// The bytes of the command that starts a scan in `mode`.
    pub fn scan_request(mode: ScanMode) -> (request: Vec<u8>)
        ensures
            request@ == scan_frame(mode),
    {
        match mode {
            ScanMode::Plain => encode_request(SlLidarCmd::Scan, None),
            ScanMode::Dense => {
                let body: [u8; 5] = [0, 0, 0, 0, 0];
                assert(body@ =~= dense_scan_body());
                encode_request(SlLidarCmd::ExpressScan, Some(body.as_slice()))
            },
        }
    }

    /// Records what came of writing the command that starts a plain scan.
    ///
    /// If the write failed, its error is handed back and nothing changes.
    /// If it went through, the session scans, the request to stop is
    /// cleared, a reader counts as attached, and the decoder for that
    /// reader is handed out. No reader may be attached already.
    pub fn start_scan(&mut self, written: Result<(), serialport::Error>) -> (started: Result<
        StreamDecoder,
        serialport::Error,
    >)
        requires
            !old(self).spec_reader_attached(),
        ensures
            old(self).wf() ==> final(self).wf(),
            Self::scan_started(*old(self), *final(self), ScanMode::Plain, written, started),
    {
        self.begin_scan(ScanMode::Plain, written)
    }

    /// Records what came of writing the command that starts a dense scan;
    /// in all else as `start_scan`.
    pub fn start_scan_dense(&mut self, written: Result<(), serialport::Error>) -> (started:
        Result<StreamDecoder, serialport::Error>)
        requires
            !old(self).spec_reader_attached(),
        ensures
            old(self).wf() ==> final(self).wf(),
            Self::scan_started(*old(self), *final(self), ScanMode::Dense, written, started),
    {
        self.begin_scan(ScanMode::Dense, written)
    }

    /// How the start of a scan changes the controller `before` into
    /// `after`, given what came of the write.
    pub open spec fn scan_started(
        before: Lidar,
        after: Lidar,
        mode: ScanMode,
        written: Result<(), serialport::Error>,
        started: Result<StreamDecoder, serialport::Error>,
    ) -> bool {
        match written {
            Err(e) => after == before && started == Err::<StreamDecoder, serialport::Error>(e),
            Ok(_) => {
                &&& after.spec_state() == LidarState::Scanning
                &&& after.spec_reader_attached()
                &&& !after.spec_cancel_requested()
                &&& started matches Ok(decoder)
                &&& decoder == (StreamDecoder {
                    mode,
                    phase: crate::decoder::Phase::AwaitingDescriptor,
                    seeking: true,
                })
            },
        }
    }

    fn begin_scan(&mut self, mode: ScanMode, written: Result<(), serialport::Error>) -> (started:
        Result<StreamDecoder, serialport::Error>)
        ensures
            old(self).wf() ==> final(self).wf(),
            Self::scan_started(*old(self), *final(self), mode, written, started),
    {
        match written {
            Err(e) => Err(e),
            Ok(_) => {
                self.state = LidarState::Scanning;
                self.attached = true;
                self.nuke = false;
                Ok(StreamDecoder::new(mode))
            },
        }
    }

    /// Tells the session to stop and gives the bytes of the command to
    /// write: a reset if `reset`, a stop otherwise. The session is idle
    /// afterwards; a reader that is attached stays so until it is joined.
    pub fn stop(&mut self, reset: bool) -> (request: Vec<u8>)
        ensures
            final(self).wf(),
            final(self).spec_state() == LidarState::Idle,
            final(self).spec_cancel_requested(),
            final(self).spec_reader_attached() == old(self).spec_reader_attached(),
            request@ == stop_frame(reset),
    {
        self.nuke = true;
        self.state = LidarState::Idle;
        if reset {
            encode_request(SlLidarCmd::Reset, None)
        } else {
            encode_request(SlLidarCmd::Stop, None)
        }
    }

    /// Tells the session to stop and gives the bytes of the reset command.
    pub fn reset(&mut self) -> (request: Vec<u8>)
        ensures
            final(self).wf(),
            final(self).spec_state() == LidarState::Idle,
            final(self).spec_cancel_requested(),
            final(self).spec_reader_attached() == old(self).spec_reader_attached(),
            request@ == stop_frame(true),
    {
        self.stop(true)
    }

    /// Records that the reader has been waited for. The answer says whether
    /// there was a reader to wait for; afterwards none is attached and the
    /// session is idle. Joining twice changes nothing the second time.
    pub fn join(&mut self) -> (had_reader: bool)
        ensures
            final(self).wf(),
            had_reader == old(self).spec_reader_attached(),
            !final(self).spec_reader_attached(),
            final(self).spec_state() == LidarState::Idle,
            final(self).spec_cancel_requested() == old(self).spec_cancel_requested(),
    {
        let had_reader = self.attached;
        self.attached = false;
        self.state = LidarState::Idle;
        had_reader
    }
}

} // verus!
