//! The request/response engine as a state machine.
//!
//! One exchange is one request and its one reply: the request is written,
//! seven descriptor bytes are read and decoded, and as many payload bytes
//! are read as the descriptor announces. The engine performs none of this
//! itself: it says what to write or read next and takes what came of it.

use crate::error::RxError;
use crate::frame::{decode_descriptor, descriptor_of, has_sync, Response, ResponseDescriptor};
use vstd::prelude::*;

verus! {

/// Where an exchange stands.
#[derive(Debug, Clone, Copy, PartialEq, Eq, Structural)]
pub enum ExchangeState {
    /// The request is being written.
    Writing,
    /// The request is out; the descriptor is awaited.
    AwaitingDescriptor,
    /// The descriptor was accepted; its payload is awaited.
    AwaitingPayload(ResponseDescriptor),
    /// The exchange has ended.
    Done,
}

/// What came of the action that the engine asked for.
#[derive(Debug, Clone)]
pub enum ExchangeEvent {
    /// The bytes were written.
    Written,
    /// The bytes that were asked for were read.
    Received(Vec<u8>),
    /// The transport failed.
    Failed(serialport::Error),
}

/// What the caller of the engine does next.
#[derive(Debug)]
pub enum ExchangeAction {
    /// Write these bytes.
    Write(Vec<u8>),
    /// Read exactly this many bytes.
    Read(usize),
    /// The exchange has ended with this result.
    Finish(Result<Response, RxError>),
}

/// One request/response exchange.
#[derive(Debug, Clone, Copy, PartialEq, Eq, Structural)]
pub struct Exchange {
    pub state: ExchangeState,
}

impl Exchange {
    /// Whether `event` answers what the exchange last asked for: a write
    /// ends as written or failed, a read as failed or with exactly the
    /// number of bytes asked for. An exchange that has ended asks for
    /// nothing.
    pub open spec fn accepts(&self, event: ExchangeEvent) -> bool {
        match self.state {
            ExchangeState::Writing => !(event is Received),
            ExchangeState::AwaitingDescriptor => match event {
                ExchangeEvent::Written => false,
                ExchangeEvent::Received(bytes) => bytes@.len() == 7,
                ExchangeEvent::Failed(_) => true,
            },
            ExchangeState::AwaitingPayload(descriptor) => match event {
                ExchangeEvent::Written => false,
                ExchangeEvent::Received(bytes) => bytes@.len() == descriptor.len,
                ExchangeEvent::Failed(_) => true,
            },
            ExchangeState::Done => false,
        }
    }

    /// Begins an exchange: the first action is to write the request.
    pub fn begin(request: Vec<u8>) -> (started: (Exchange, ExchangeAction))
        ensures
            started.0.state == ExchangeState::Writing,
            started.1 == ExchangeAction::Write(request),
    {
        (Exchange { state: ExchangeState::Writing }, ExchangeAction::Write(request))
    }

    /// Takes what came of the last action and says what to do next.
    ///
    /// A failure of the transport ends the exchange with that failure. Once
    /// the request is written, seven bytes are read. If they begin with the
    /// sync sequence they are decoded and the payload they announce is
    /// read; if not, the exchange ends with them as corrupted. The payload
    /// ends the exchange with the response.
    pub fn step(&mut self, event: ExchangeEvent) -> (action: ExchangeAction)
        requires
            old(self).accepts(event),
        ensures
            event matches ExchangeEvent::Failed(e) ==> {
                &&& final(self).state == ExchangeState::Done
                &&& action == ExchangeAction::Finish(
                    Err::<Response, RxError>(RxError::PortError(e)),
                )
            },
            event is Written ==> {
                &&& final(self).state == ExchangeState::AwaitingDescriptor
                &&& action == ExchangeAction::Read(7)
            },
            old(self).state is AwaitingDescriptor ==> (event matches ExchangeEvent::Received(
                bytes,
            ) ==> {
                &&& has_sync(bytes@) ==> {
                    &&& final(self).state == ExchangeState::AwaitingPayload(descriptor_of(bytes@))
                    &&& action == ExchangeAction::Read(descriptor_of(bytes@).len as usize)
                }
                &&& !has_sync(bytes@) ==> {
                    &&& final(self).state == ExchangeState::Done
                    &&& action matches ExchangeAction::Finish(Err(RxError::Corrupted(header)))
                    &&& header@ == bytes@
                }
            }),
            old(self).state matches ExchangeState::AwaitingPayload(descriptor) ==> (
            event matches ExchangeEvent::Received(bytes) ==> {
                &&& final(self).state == ExchangeState::Done
                &&& action == ExchangeAction::Finish(
                    Ok::<Response, RxError>(Response { descriptor, data: bytes }),
                )
            }),
            action matches ExchangeAction::Finish(Ok(response)) ==> response.wf(),
            !(final(self).state is Writing),
    {
        match event {
            ExchangeEvent::Failed(e) => {
                self.state = ExchangeState::Done;
                ExchangeAction::Finish(Err(RxError::from(e)))
            },
            ExchangeEvent::Written => {
                self.state = ExchangeState::AwaitingDescriptor;
                ExchangeAction::Read(7)
            },
            ExchangeEvent::Received(bytes) => match self.state {
                ExchangeState::AwaitingPayload(descriptor) => {
                    self.state = ExchangeState::Done;
                    ExchangeAction::Finish(Ok(Response { descriptor, data: bytes }))
                },
                _ => {
                    let header: [u8; 7] = [
                        bytes[0],
                        bytes[1],
                        bytes[2],
                        bytes[3],
                        bytes[4],
                        bytes[5],
                        bytes[6],
                    ];
                    assert(header@ =~= bytes@);
                    match decode_descriptor(&header) {
                        Ok(descriptor) => {
                            self.state = ExchangeState::AwaitingPayload(descriptor);
                            ExchangeAction::Read(descriptor.len as usize)
                        },
                        Err(e) => {
                            self.state = ExchangeState::Done;
                            ExchangeAction::Finish(Err(e))
                        },
                    }
                },
            },
        }
    }
}

} // verus!
