//! Error types of the protocol layer.
use vstd::prelude::*;

verus! {

/// Errors raised while decoding, encoding or dispatching frames.
#[derive(Debug)]
pub enum Error {
    /// The payload carries no metadata.
    MetadataNotFound,
    /// A frame was decoded with the decoder of another frame type.
    WrongType,
    /// Frame data could not be read as UTF-8 text.
    StringConversion,
    /// A recorded frame could not be turned back into a frame.
    Record(String),
    /// The receiving end of a socket was already taken.
    ReceiverAlreadyGone,
    /// An RSocket-level failure, with its error code.
    RSocket(u32),
}

/// An error carried in an ERROR frame: an RSocket error code and a message.
#[derive(Debug)]
pub struct PayloadError {
    /// The RSocket error code.
    pub code: u32,
    /// The error message.
    pub msg: String,
}

impl PayloadError {
    /// A new error with the given code and message.
    pub fn new(code: u32, msg: String) -> (r: PayloadError)
        ensures
            r.code == code,
            r.msg@ == msg@,
    {
        PayloadError { code, msg }
    }

    /// A new APPLICATION_ERROR (code 0x201) with the given message.
    pub fn application_error(msg: String) -> (r: PayloadError)
        ensures
            r.code == 0x201,
            r.msg@ == msg@,
    {
        PayloadError { code: 0x201, msg }
    }
}

} // verus!
