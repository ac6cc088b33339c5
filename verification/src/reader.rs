//! Error taxonomy and the capability interface shared by reader backends.

use vstd::prelude::*;
use vstd::string::*;

verus! {

/// Which structural or checksum invariant an inbound frame violated.
///
/// The payload of a variant, where present, is the offending byte.
#[derive(Debug, PartialEq, Eq)]
pub enum ProtocolFault {
    /// The fixed preamble/start bytes of a response header did not match.
    Header,
    /// The length byte and the length checksum byte do not cancel mod 256.
    LengthChecksum,
    /// The declared length cannot hold a frame identifier and a response
    /// code, or does not match the number of bytes actually present.
    FrameLength,
    /// The frame identifier is not the device-to-host constant.
    FrameIdentifier(u8),
    /// The response code is not the expected command code plus one.
    ResponseCode(u8),
    /// The data checksum does not cancel the covered bytes mod 256.
    DataChecksum(u8),
    /// The closing byte of the frame is not zero.
    Postamble(u8),
    /// An acknowledgement body did not match the fixed constant.
    Ack,
    /// A tag-listing response reported a tag but is too short to carry one.
    TargetIncomplete,
    /// A tag-listing response declared a UID length that exceeds the
    /// bytes remaining in the response.
    UidLength(u8),
}

/// Everything that can go wrong while talking to a reader.
#[derive(Debug, PartialEq, Eq)]
pub enum ReaderError {
    /// The setup sequence could not complete.
    Initialization(String),
    /// A bounded wait elapsed with no qualifying result.
    Timeout,
    /// An OS- or transport-level failure, with the transport's message.
    Device(String),
    /// A received frame violated a structural or checksum invariant.
    Protocol(ProtocolFault),
}

impl ReaderError {
    /// A short operator-facing description of the error kind.
    pub fn describe(&self) -> (r: String)
        ensures
            self is Initialization ==> r@ == "Reader initialization failed"@,
            self is Timeout ==> r@ == "Timed out while waiting for a card"@,
            self is Device ==> r@ == "Reader device error"@,
            self is Protocol ==> r@ == "Reader protocol error"@,
    {
        match self {
            ReaderError::Initialization(_) => String::from_str("Reader initialization failed"),
            ReaderError::Timeout => String::from_str("Timed out while waiting for a card"),
            ReaderError::Device(_) => String::from_str("Reader device error"),
            ReaderError::Protocol(_) => String::from_str("Reader protocol error"),
        }
    }
}

/// The category of card technology a reader speaks.
#[derive(Debug, Clone, Copy, PartialEq, Eq, Structural)]
pub enum ReaderType {
    /// Contactless tags (ISO 14443-style) handled by the PN532 driver.
    NFC,
    /// The 125 kHz card technology of the unimplemented second backend.
    RFID,
}

/// The capability interface of a card reader backend.
///
/// Exactly one implementer is selected when the embedding program starts;
/// downstream code depends only on this interface.
pub trait Reader {
    /// Performs the backend's one-time setup sequence. Idempotent.
    fn init(&mut self) -> Result<(), ReaderError>;

    /// Waits up to `timeout_ms` milliseconds for a card and returns its UID.
    fn read_uid(&mut self, timeout_ms: u64) -> Result<Vec<u8>, ReaderError>;

    /// Reports the backend's card technology. Pure; always succeeds.
    fn get_reader_type(&self) -> ReaderType;
}

} // verus!
