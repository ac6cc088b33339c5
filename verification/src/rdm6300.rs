//! Stub backend for the RDM6300 reader: the second card technology is
//! acknowledged but not implemented in this build, so every operation
//! fails with a fixed error instead of panicking.

use vstd::prelude::*;
use vstd::string::*;

use crate::reader::{Reader, ReaderError, ReaderType};

verus! {

/// The unimplemented RDM6300 backend.
pub struct Rdm6300;

impl Reader for Rdm6300 {
    fn init(&mut self) -> (r: Result<(), ReaderError>)
        ensures
            r matches Err(e) && e matches ReaderError::Initialization(msg) && msg@
                == "RDM6300 reader is not implemented"@,
    {
        Err(ReaderError::Initialization(String::from_str("RDM6300 reader is not implemented")))
    }

    fn read_uid(&mut self, timeout_ms: u64) -> (r: Result<Vec<u8>, ReaderError>)
        ensures
            r matches Err(e) && e matches ReaderError::Device(msg) && msg@
                == "RDM6300 reader is not available in this build"@,
    {
        Err(ReaderError::Device(String::from_str("RDM6300 reader is not available in this build")))
    }

    fn get_reader_type(&self) -> (t: ReaderType)
        ensures
            t == ReaderType::RFID,
    {
        ReaderType::RFID
    }
}

} // verus!
