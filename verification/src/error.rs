//! Errors of a request/response exchange.

use vstd::prelude::*;
use vstd::std_specs::convert::FromSpecImpl;

verus! {

/// The serial transport's error type, carried through unopened.
#[verifier::external_type_specification]
#[verifier::external_body]
pub struct ExPortError(serialport::Error);

/// The operating system's I/O error type, carried through unopened.
#[verifier::external_type_specification]
#[verifier::external_body]
pub struct ExIoError(std::io::Error);

/// `Clone` for `serialport::Error` is derived upstream for a struct of a
/// `Copy` kind and a `String`: the clone equals the value it was made from.
pub assume_specification[ <serialport::Error as Clone>::clone ](e: &serialport::Error) -> (r:
    serialport::Error)
    ensures
        r == *e,
;

/// Why a request did not yield a response.
#[derive(Debug, Clone)]
pub enum RxError {
    /// The seven descriptor bytes did not begin with the sync sequence.
    Corrupted([u8; 7]),
    /// The transport failed while writing or reading.
    PortError(serialport::Error),
    /// No data arrived in time.
    TimedOut,
}

/// A failure of the transport is carried as a port error.
impl From<serialport::Error> for RxError {
    fn from(e: serialport::Error) -> (r: RxError) {
        RxError::PortError(e)
    }
}

impl FromSpecImpl<serialport::Error> for RxError {
    open spec fn obeys_from_spec() -> bool {
        true
    }

    open spec fn from_spec(e: serialport::Error) -> RxError {
        RxError::PortError(e)
    }
}

/// `serialport::Error::from` for an I/O error keeps the error's kind and its
/// text. Nothing of the result is stated here.
#[verifier::external_body]
fn port_error_from_io(e: std::io::Error) -> (r: serialport::Error) {
    serialport::Error::from(e)
}

/// An I/O error becomes a port error. Which port error is left to the
/// transport's own conversion.
impl From<std::io::Error> for RxError {
    fn from(e: std::io::Error) -> (r: RxError)
        ensures
            r is PortError,
    {
        RxError::PortError(port_error_from_io(e))
    }
}

impl FromSpecImpl<std::io::Error> for RxError {
    open spec fn obeys_from_spec() -> bool {
        false
    }

    open spec fn from_spec(e: std::io::Error) -> RxError {
        arbitrary()
    }
}

} // verus!
