use pn532_reader::pn532::{interpret_list_response, Action, Event, Pn532Reader};
use pn532_reader::reader::{ProtocolFault, ReaderError, ReaderType};

/// A scripted bus: chunks the device will answer reads with, in order,
/// plus a log of everything the driver wrote and every sleep it asked
/// for.
struct FakeBus {
    reads: Vec<Vec<u8>>,
    next_read: usize,
    writes: Vec<Vec<u8>>,
    sleeps: Vec<u64>,
}

impl FakeBus {
    fn new(reads: Vec<Vec<u8>>) -> FakeBus {
        FakeBus { reads, next_read: 0, writes: Vec::new(), sleeps: Vec::new() }
    }

    /// Drives the machine until it finishes the operation, performing
    /// each requested action against the script.
    fn run(&mut self, machine: &mut Pn532Reader, first: Action) -> Action {
        let mut action = first;
        loop {
            match action {
                Action::Write(bytes) => {
                    self.writes.push(bytes);
                    action = machine.step(Event::Completed);
                }
                Action::Sleep(ms) => {
                    self.sleeps.push(ms);
                    action = machine.step(Event::Completed);
                }
                Action::Read(n) => {
                    assert!(self.next_read < self.reads.len(), "script exhausted");
                    let chunk = self.reads[self.next_read].clone();
                    self.next_read += 1;
                    assert_eq!(chunk.len(), n, "script chunk does not match requested read");
                    action = machine.step(Event::Bytes(chunk));
                }
                done => return done,
            }
        }
    }
}

const ACK: [u8; 6] = [0x00, 0x00, 0xFF, 0x00, 0xFF, 0x00];

/// The status byte that signals "data ready".
fn ready() -> Vec<u8> {
    vec![0x01]
}

/// Header and body chunks of a well-formed response answering `command`
/// with `data`, as the driver reads them.
fn response_chunks(command: u8, data: &[u8]) -> (Vec<u8>, Vec<u8>) {
    let len = (data.len() + 2) as u8;
    let code = command + 1;
    let mut sum = 0xD5u8.wrapping_add(code);
    for &b in data {
        sum = sum.wrapping_add(b);
    }
    let header = vec![0x00, 0x00, 0xFF, len, 0u8.wrapping_sub(len)];
    let mut body = vec![0xD5, code];
    body.extend_from_slice(data);
    body.push(0u8.wrapping_sub(sum));
    body.push(0x00);
    (header, body)
}

/// The read chunks of one complete exchange: acknowledgement, then the
/// response answering `command` with `data`.
fn exchange_chunks(command: u8, data: &[u8]) -> Vec<Vec<u8>> {
    let (header, body) = response_chunks(command, data);
    vec![ready(), ACK.to_vec(), ready(), header, body]
}

/// A tag-listing data payload reporting one tag with the given UID.
fn one_tag(uid: &[u8]) -> Vec<u8> {
    let mut data = vec![0x01, 0x01, 0x00, 0x04, 0x08, uid.len() as u8];
    data.extend_from_slice(uid);
    data
}

#[test]
fn init_performs_wake_and_sam_configuration() {
    let mut machine = Pn532Reader::new();
    let mut bus = FakeBus::new(exchange_chunks(0x14, &[]));
    let first = machine.start_init();
    let outcome = bus.run(&mut machine, first);
    assert_eq!(outcome, Action::InitDone);
    assert!(machine.is_initialized());
    // One wake-up byte, then the SAM configuration frame.
    assert_eq!(bus.writes.len(), 2);
    assert_eq!(bus.writes[0], vec![0x00]);
    assert_eq!(
        bus.writes[1],
        vec![0x00, 0x00, 0x00, 0xFF, 0x04, 0xFC, 0xD4, 0x14, 0x01, 0x14, 0x01, 0x02, 0x00]
    );
    // The settle delay ran.
    assert_eq!(bus.sleeps, vec![20]);
}

#[test]
fn init_twice_is_a_no_op_with_no_further_writes() {
    let mut machine = Pn532Reader::new();
    let mut bus = FakeBus::new(exchange_chunks(0x14, &[]));
    let first = machine.start_init();
    assert_eq!(bus.run(&mut machine, first), Action::InitDone);
    let writes_after_first = bus.writes.len();

    // The second call succeeds immediately without any bus action.
    let second = machine.start_init();
    assert_eq!(second, Action::InitDone);
    assert!(machine.is_initialized());
    assert_eq!(bus.writes.len(), writes_after_first);
}

#[test]
fn read_uid_returns_preloaded_tag_uid() {
    // Wake-up ack'd implicitly (a write), a valid SAM configuration
    // ack and response, then a valid tag listing reporting one tag.
    let mut machine = Pn532Reader::new();
    let mut reads = exchange_chunks(0x14, &[]);
    reads.extend(exchange_chunks(0x4A, &one_tag(&[0x04, 0x12, 0x34, 0x56])));
    let mut bus = FakeBus::new(reads);
    let first = machine.start_read_uid(2000);
    let outcome = bus.run(&mut machine, first);
    assert_eq!(outcome, Action::UidFound(vec![0x04, 0x12, 0x34, 0x56]));
    assert!(machine.is_initialized());
    // Wake byte, SAM frame, one tag-listing frame.
    assert_eq!(bus.writes.len(), 3);
    assert_eq!(
        bus.writes[2],
        vec![0x00, 0x00, 0x00, 0xFF, 0x03, 0xFD, 0xD4, 0x4A, 0x01, 0x00, 0xE1, 0x00]
    );
}

#[test]
fn read_uid_retries_after_empty_polls_and_counts_backoffs() {
    // Three polls report zero tags, the fourth reports one.
    let mut machine = Pn532Reader::new();
    let mut reads = exchange_chunks(0x14, &[]);
    for _ in 0..3 {
        reads.extend(exchange_chunks(0x4A, &[0x00]));
    }
    reads.extend(exchange_chunks(0x4A, &one_tag(&[0xDE, 0xAD, 0xBE, 0xEF, 0x42, 0x42, 0x42])));
    let mut bus = FakeBus::new(reads);
    let first = machine.start_read_uid(2000);
    let outcome = bus.run(&mut machine, first);
    assert_eq!(outcome, Action::UidFound(vec![0xDE, 0xAD, 0xBE, 0xEF, 0x42, 0x42, 0x42]));
    // Three backoff sleeps between the four attempts, and the driver's
    // elapsed-time model reflects exactly those three backoffs.
    let backoffs = bus.sleeps.iter().filter(|&&ms| ms == 100).count();
    assert_eq!(backoffs, 3);
    assert_eq!(machine.elapsed_ms(), 300);
    // Four tag-listing frames were written after wake-up and SAM.
    assert_eq!(bus.writes.len(), 6);
}

#[test]
fn read_uid_times_out_when_no_tag_ever_appears() {
    let mut machine = Pn532Reader::new();
    let mut reads = exchange_chunks(0x14, &[]);
    // Enough empty polls for any 450 ms deadline.
    for _ in 0..10 {
        reads.extend(exchange_chunks(0x4A, &[0x00]));
    }
    let mut bus = FakeBus::new(reads);
    let first = machine.start_read_uid(450);
    let outcome = bus.run(&mut machine, first);
    assert_eq!(outcome, Action::Fail(ReaderError::Timeout));
    // Never earlier than the requested deadline, and not unboundedly
    // later: the overshoot is below one backoff.
    assert!(machine.elapsed_ms() >= 450);
    assert!(machine.elapsed_ms() < 450 + 100);
    assert_eq!(machine.elapsed_ms(), 500);
    // A timed-out read leaves the driver initialized and ready.
    assert!(machine.is_initialized());
}

#[test]
fn read_uid_with_zero_timeout_fails_without_polling() {
    let mut machine = Pn532Reader::new();
    let mut bus = FakeBus::new(exchange_chunks(0x14, &[]));
    let first = machine.start_init();
    assert_eq!(bus.run(&mut machine, first), Action::InitDone);
    let writes_after_init = bus.writes.len();

    let outcome = machine.start_read_uid(0);
    assert_eq!(outcome, Action::Fail(ReaderError::Timeout));
    assert_eq!(bus.writes.len(), writes_after_init);
}

#[test]
fn mismatched_ack_fails_init_with_protocol_error() {
    let mut machine = Pn532Reader::new();
    let mut bus = FakeBus::new(vec![ready(), vec![0x00, 0x00, 0xFF, 0xFF, 0x00, 0x00]]);
    let first = machine.start_init();
    let outcome = bus.run(&mut machine, first);
    assert_eq!(outcome, Action::Fail(ReaderError::Protocol(ProtocolFault::Ack)));
    // The driver stays uninitialized.
    assert!(!machine.is_initialized());
}

#[test]
fn corrupt_response_header_fails_with_protocol_error() {
    let mut machine = Pn532Reader::new();
    let reads = vec![ready(), ACK.to_vec(), ready(), vec![0x00, 0x00, 0xFF, 0x04, 0x55]];
    let mut bus = FakeBus::new(reads);
    let first = machine.start_init();
    let outcome = bus.run(&mut machine, first);
    assert_eq!(outcome, Action::Fail(ReaderError::Protocol(ProtocolFault::LengthChecksum)));
    assert!(!machine.is_initialized());
}

#[test]
fn declared_uid_length_exceeding_response_fails_with_protocol_error() {
    let mut machine = Pn532Reader::new();
    let mut reads = exchange_chunks(0x14, &[]);
    // One tag whose declared UID length (9) exceeds the 4 bytes present.
    let mut data = vec![0x01, 0x01, 0x00, 0x04, 0x08, 0x09];
    data.extend_from_slice(&[0x04, 0x12, 0x34, 0x56]);
    reads.extend(exchange_chunks(0x4A, &data));
    let mut bus = FakeBus::new(reads);
    let first = machine.start_read_uid(2000);
    let outcome = bus.run(&mut machine, first);
    assert_eq!(outcome, Action::Fail(ReaderError::Protocol(ProtocolFault::UidLength(0x09))));
}

#[test]
fn uid_length_always_matches_declared_length() {
    // For every declared length from 1 to the bytes available, the
    // returned UID has exactly that many bytes.
    for uid_len in 1..=8usize {
        let uid: Vec<u8> = (0..uid_len as u8).map(|b| b.wrapping_add(0x30)).collect();
        let mut machine = Pn532Reader::new();
        let mut reads = exchange_chunks(0x14, &[]);
        reads.extend(exchange_chunks(0x4A, &one_tag(&uid)));
        let mut bus = FakeBus::new(reads);
        let first = machine.start_read_uid(1000);
        match bus.run(&mut machine, first) {
            Action::UidFound(found) => {
                assert_eq!(found.len(), uid_len);
                assert_eq!(found, uid);
            }
            other => panic!("expected a UID, got {:?}", other),
        }
    }
}

#[test]
fn tag_listing_too_short_fails_with_protocol_error() {
    let mut machine = Pn532Reader::new();
    let mut reads = exchange_chunks(0x14, &[]);
    // Reports one tag but carries fewer than six data bytes.
    reads.extend(exchange_chunks(0x4A, &[0x01, 0x01, 0x00]));
    let mut bus = FakeBus::new(reads);
    let first = machine.start_read_uid(2000);
    let outcome = bus.run(&mut machine, first);
    assert_eq!(
        outcome,
        Action::Fail(ReaderError::Protocol(ProtocolFault::TargetIncomplete))
    );
}

#[test]
fn device_failure_aborts_and_preserves_state() {
    let mut machine = Pn532Reader::new();
    let first = machine.start_init();
    assert!(matches!(first, Action::Write(_)));
    let outcome = machine.step(Event::Failed(String::from("bus rejected the transfer")));
    assert_eq!(
        outcome,
        Action::Fail(ReaderError::Device(String::from("bus rejected the transfer")))
    );
    assert!(!machine.is_initialized());
}

#[test]
fn not_ready_status_polls_again_before_the_ack() {
    let mut machine = Pn532Reader::new();
    // Two "not ready" status bytes before the acknowledgement appears.
    let mut reads = vec![vec![0x00], vec![0x00]];
    reads.extend(exchange_chunks(0x14, &[]));
    let mut bus = FakeBus::new(reads);
    let first = machine.start_init();
    let outcome = bus.run(&mut machine, first);
    assert_eq!(outcome, Action::InitDone);
    // Two poll delays of 5 ms ran in addition to the settle delay.
    let polls = bus.sleeps.iter().filter(|&&ms| ms == 5).count();
    assert_eq!(polls, 2);
}

#[test]
fn ack_wait_times_out_when_device_never_ready() {
    let mut machine = Pn532Reader::new();
    // 400 polls of 5 ms exhaust the fixed 2000 ms acknowledgement wait.
    let reads = vec![vec![0x00u8]; 400];
    let mut bus = FakeBus::new(reads);
    let first = machine.start_init();
    let outcome = bus.run(&mut machine, first);
    assert_eq!(outcome, Action::Fail(ReaderError::Timeout));
    assert!(!machine.is_initialized());
}

#[test]
fn reader_type_is_nfc() {
    let machine = Pn532Reader::new();
    assert!(matches!(machine.get_reader_type(), ReaderType::NFC));
}

#[test]
fn interpret_list_response_no_tag_cases() {
    assert_eq!(interpret_list_response(&Vec::new()), Ok(None));
    assert_eq!(interpret_list_response(&vec![0x00]), Ok(None));
    assert_eq!(interpret_list_response(&vec![0x00, 0x01, 0x02]), Ok(None));
}

#[test]
fn interpret_list_response_extracts_declared_uid() {
    let data = vec![0x01, 0x01, 0x00, 0x04, 0x08, 0x03, 0xAA, 0xBB, 0xCC, 0xDD];
    // Declared length 3: exactly three UID bytes, the trailing byte ignored.
    assert_eq!(interpret_list_response(&data), Ok(Some(vec![0xAA, 0xBB, 0xCC])));
}

#[test]
fn interpret_list_response_rejects_bad_lengths() {
    assert_eq!(
        interpret_list_response(&vec![0x01, 0x01]),
        Err(ReaderError::Protocol(ProtocolFault::TargetIncomplete))
    );
    assert_eq!(
        interpret_list_response(&vec![0x01, 0x01, 0x00, 0x04, 0x08, 0x05, 0xAA]),
        Err(ReaderError::Protocol(ProtocolFault::UidLength(0x05)))
    );
}
