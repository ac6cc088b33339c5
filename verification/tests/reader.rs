use pn532_reader::rdm6300::Rdm6300;
use pn532_reader::reader::{ProtocolFault, Reader, ReaderError, ReaderType};

#[test]
fn rdm6300_init_reports_unimplemented() {
    let mut reader = Rdm6300;
    match reader.init() {
        Err(ReaderError::Initialization(msg)) => {
            assert_eq!(msg, "RDM6300 reader is not implemented");
        }
        other => panic!("expected an initialization error, got {:?}", other),
    }
}

#[test]
fn rdm6300_read_uid_reports_unavailable() {
    let mut reader = Rdm6300;
    match reader.read_uid(1000) {
        Err(ReaderError::Device(msg)) => {
            assert_eq!(msg, "RDM6300 reader is not available in this build");
        }
        other => panic!("expected a device error, got {:?}", other),
    }
}

#[test]
fn rdm6300_reader_type_is_rfid() {
    let reader = Rdm6300;
    assert!(matches!(reader.get_reader_type(), ReaderType::RFID));
}

#[test]
fn reader_types_are_distinct() {
    assert_ne!(ReaderType::NFC, ReaderType::RFID);
}

#[test]
fn error_descriptions_name_the_kind() {
    assert_eq!(
        ReaderError::Initialization(String::from("x")).describe(),
        "Reader initialization failed"
    );
    assert_eq!(ReaderError::Timeout.describe(), "Timed out while waiting for a card");
    assert_eq!(ReaderError::Device(String::from("x")).describe(), "Reader device error");
    assert_eq!(
        ReaderError::Protocol(ProtocolFault::Header).describe(),
        "Reader protocol error"
    );
}
