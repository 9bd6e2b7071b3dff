//! Errors of the network layer.
use vstd::prelude::*;

verus! {

#[verifier::external_type_specification]
#[verifier::external_body]
pub struct ExIoError(std::io::Error);

/// Network layer error.
#[derive(Debug)]
pub enum NetError {
    /// An I/O error (also used for truncated frames).
    Io(std::io::Error),
    /// A packet id that nothing handles.
    InvalidPacketId(u16),
    /// The connection was closed.
    ConnectionClosed,
    /// A payload too large to frame; carries the payload length as a `u16`.
    PacketTooLarge(u16),
}

/// `std::io::Error::new(ErrorKind::UnexpectedEof, message)`: builds an
/// I/O error of kind `UnexpectedEof`. The error is opaque here (it has no
/// view to name its kind by), so nothing is claimed about it.
#[verifier::external_body]
pub(crate) fn unexpected_eof(message: &str) -> std::io::Error {
    std::io::Error::new(std::io::ErrorKind::UnexpectedEof, message)
}

} // verus!
