use pn532_reader::codec::{decode_response, encode_command, is_ack};
use pn532_reader::reader::{ProtocolFault, ReaderError};

/// The byte that cancels `x` mod 256.
fn checksum(x: u8) -> u8 {
    0u8.wrapping_sub(x)
}

/// A well-formed response frame answering `command` with `data`.
fn response_frame(command: u8, data: &[u8]) -> Vec<u8> {
    let len = (data.len() + 2) as u8;
    let code = command + 1;
    let mut sum = 0xD5u8.wrapping_add(code);
    for &b in data {
        sum = sum.wrapping_add(b);
    }
    let mut frame = vec![0x00, 0x00, 0xFF, len, checksum(len), 0xD5, code];
    frame.extend_from_slice(data);
    frame.push(checksum(sum));
    frame.push(0x00);
    frame
}

#[test]
fn encode_list_target_command_exact_bytes() {
    let frame = encode_command(0x4A, &vec![0x01, 0x00]);
    // len = command + payload = 3, lcs = 0xFD;
    // dcs cancels 0xD4 + 0x4A + 0x01 + 0x00 = 0x11F, i.e. 0x1F -> 0xE1.
    assert_eq!(
        frame,
        vec![0x00, 0x00, 0x00, 0xFF, 0x03, 0xFD, 0xD4, 0x4A, 0x01, 0x00, 0xE1, 0x00]
    );
}

#[test]
fn encode_sam_config_command_exact_bytes() {
    let frame = encode_command(0x14, &vec![0x01, 0x14, 0x01]);
    // dcs cancels 0xD4 + 0x14 + 0x01 + 0x14 + 0x01 = 0xFE -> 0x02.
    assert_eq!(
        frame,
        vec![0x00, 0x00, 0x00, 0xFF, 0x04, 0xFC, 0xD4, 0x14, 0x01, 0x14, 0x01, 0x02, 0x00]
    );
}

#[test]
fn encode_empty_payload() {
    let frame = encode_command(0x02, &Vec::new());
    // len = 1, lcs = 0xFF; dcs cancels 0xD4 + 0x02 = 0xD6 -> 0x2A.
    assert_eq!(frame, vec![0x00, 0x00, 0x00, 0xFF, 0x01, 0xFF, 0xD4, 0x02, 0x2A, 0x00]);
}

#[test]
fn command_frame_checksums_cancel() {
    // Checksum law on concrete frames: the covered bytes (frame
    // identifier, command, payload) plus the data checksum vanish mod 256,
    // and so do the length byte and the length checksum.
    for payload in [vec![], vec![0x01, 0x00], vec![0xFF, 0xFF, 0x80], vec![0x12; 40]] {
        let frame = encode_command(0x4A, &payload);
        let n = frame.len();
        let mut sum = 0u8;
        for &b in &frame[6..n - 2] {
            sum = sum.wrapping_add(b);
        }
        assert_eq!(sum.wrapping_add(frame[n - 2]), 0);
        assert_eq!(frame[4].wrapping_add(frame[5]), 0);
    }
}

#[test]
fn decode_round_trips_mirrored_response() {
    for data in [vec![], vec![0xAB], vec![0x01, 0x02, 0x03, 0x04], vec![0x77; 100]] {
        let frame = response_frame(0x4A, &data);
        let decoded = decode_response(&frame, 0x4A).unwrap();
        assert_eq!(decoded, data);
    }
}

#[test]
fn decode_rejects_every_single_byte_corruption() {
    let frame = response_frame(0x4A, &[0x01, 0x01, 0x00, 0x04, 0x08]);
    for i in 0..frame.len() {
        for delta in [0x01u8, 0x80, 0xFF] {
            let mut corrupted = frame.clone();
            corrupted[i] = corrupted[i].wrapping_add(delta);
            let r = decode_response(&corrupted, 0x4A);
            assert!(
                matches!(r, Err(ReaderError::Protocol(_))),
                "corruption at byte {} not rejected",
                i
            );
        }
    }
}

#[test]
fn decode_reports_which_check_failed() {
    let good = response_frame(0x14, &[0xAA, 0xBB]);

    let mut bad = good.clone();
    bad[0] = 0x55;
    assert_eq!(decode_response(&bad, 0x14), Err(ReaderError::Protocol(ProtocolFault::Header)));

    let mut bad = good.clone();
    bad[3] = bad[3].wrapping_add(1);
    assert_eq!(
        decode_response(&bad, 0x14),
        Err(ReaderError::Protocol(ProtocolFault::LengthChecksum))
    );

    let mut bad = good.clone();
    bad[5] = 0xD4;
    assert_eq!(
        decode_response(&bad, 0x14),
        Err(ReaderError::Protocol(ProtocolFault::FrameIdentifier(0xD4)))
    );

    let mut bad = good.clone();
    bad[6] = 0x16;
    assert_eq!(
        decode_response(&bad, 0x14),
        Err(ReaderError::Protocol(ProtocolFault::ResponseCode(0x16)))
    );

    let mut bad = good.clone();
    bad[7] = bad[7].wrapping_add(1);
    let n = bad.len();
    let dcs = bad[n - 2];
    assert_eq!(
        decode_response(&bad, 0x14),
        Err(ReaderError::Protocol(ProtocolFault::DataChecksum(dcs)))
    );

    let mut bad = good.clone();
    let n = bad.len();
    bad[n - 1] = 0x01;
    assert_eq!(
        decode_response(&bad, 0x14),
        Err(ReaderError::Protocol(ProtocolFault::Postamble(0x01)))
    );

    // A frame too short for its own length byte.
    let mut truncated = good.clone();
    truncated.pop();
    assert_eq!(
        decode_response(&truncated, 0x14),
        Err(ReaderError::Protocol(ProtocolFault::FrameLength))
    );

    // A declared length too small to hold frame identifier and code.
    let short = vec![0x00, 0x00, 0xFF, 0x01, 0xFF, 0xD5, 0x15, 0x00];
    assert_eq!(
        decode_response(&short, 0x14),
        Err(ReaderError::Protocol(ProtocolFault::FrameLength))
    );

    // Too few bytes to even hold a header.
    assert_eq!(
        decode_response(&vec![0x00, 0x00], 0x14),
        Err(ReaderError::Protocol(ProtocolFault::Header))
    );
}

#[test]
fn decode_succeeds_only_for_the_expected_command() {
    let frame = response_frame(0x4A, &[0x00]);
    assert!(decode_response(&frame, 0x4A).is_ok());
    assert_eq!(
        decode_response(&frame, 0x14),
        Err(ReaderError::Protocol(ProtocolFault::ResponseCode(0x4B)))
    );
}

#[test]
fn ack_comparison_is_exact() {
    assert!(is_ack(&vec![0x00, 0x00, 0xFF, 0x00, 0xFF, 0x00]));
    assert!(!is_ack(&vec![0x00, 0x00, 0xFF, 0x00, 0xFF]));
    assert!(!is_ack(&vec![0x00, 0x00, 0xFF, 0x00, 0xFF, 0x00, 0x00]));
    assert!(!is_ack(&vec![0x00, 0x00, 0xFF, 0xFF, 0x00, 0x00]));
    assert!(!is_ack(&Vec::new()));
}
