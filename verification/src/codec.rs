//! Frame codec for the PN532 wire protocol: builds outbound command
//! frames and validates inbound response and acknowledgement frames.
//! Pure byte manipulation; no I/O.

use vstd::prelude::*;

use crate::reader::{ProtocolFault, ReaderError};

verus! {

/// The mathematical sum of a sequence of bytes.
pub open spec fn byte_sum(s: Seq<u8>) -> int
    decreases s.len(),
{
    if s.len() == 0 {
        0
    } else {
        byte_sum(s.drop_last()) + s.last()
    }
}

/// The byte that cancels `x` modulo 256: the protocol's two's-complement
/// checksum of the value `x`.
pub open spec fn checksum_of(x: int) -> int {
    (256 - (x % 256)) % 256
}

/// The checksum really cancels the value it covers.
pub proof fn lemma_checksum_cancels(x: int)
    ensures
        (x + checksum_of(x)) % 256 == 0,
        0 <= checksum_of(x) < 256,
{
    vstd::arithmetic::div_mod::lemma_mod_bound(x, 256);
    vstd::arithmetic::div_mod::lemma_add_mod_noop(x, checksum_of(x), 256);
    if x % 256 == 0 {
        assert(checksum_of(x) == 0);
    } else {
        assert(checksum_of(x) == 256 - (x % 256));
        vstd::arithmetic::div_mod::lemma_mod_self_0(256);
    }
}

/// Summing a longer prefix adds the next byte.
pub proof fn lemma_byte_sum_extend(s: Seq<u8>, i: int)
    requires
        0 <= i < s.len(),
    ensures
        byte_sum(s.subrange(0, i + 1)) == byte_sum(s.subrange(0, i)) + s[i],
{
    assert(s.subrange(0, i + 1).drop_last() =~= s.subrange(0, i));
    assert(s.subrange(0, i + 1).last() == s[i]);
}

/// The byte sum distributes over concatenation.
pub proof fn lemma_byte_sum_concat(a: Seq<u8>, b: Seq<u8>)
    ensures
        byte_sum(a + b) == byte_sum(a) + byte_sum(b),
    decreases b.len(),
{
    if b.len() == 0 {
        assert(a + b =~= a);
    } else {
        assert((a + b).drop_last() =~= a + b.drop_last());
        lemma_byte_sum_concat(a, b.drop_last());
    }
}

/// Replacing one byte shifts the sum by the difference.
pub proof fn lemma_byte_sum_update(s: Seq<u8>, i: int, b: u8)
    requires
        0 <= i < s.len(),
    ensures
        byte_sum(s.update(i, b)) == byte_sum(s) - s[i] + b,
    decreases s.len(),
{
    if i == s.len() - 1 {
        assert(s.update(i, b).drop_last() =~= s.drop_last());
    } else {
        assert(s.update(i, b).drop_last() =~= s.drop_last().update(i, b));
        lemma_byte_sum_update(s.drop_last(), i, b);
    }
}

/// The full byte sequence of a command frame: preamble and start bytes,
/// length and length checksum, host-to-device frame identifier, command
/// code, payload, data checksum, postamble.
pub open spec fn command_frame(command: u8, payload: Seq<u8>) -> Seq<u8> {
    seq![
        0u8,
        0u8,
        0u8,
        0xFFu8,
        ((payload.len() + 1) % 256) as u8,
        checksum_of((payload.len() + 1) as int) as u8,
        0xD4u8,
        command,
    ] + payload + seq![checksum_of(0xD4 + command + byte_sum(payload)) as u8, 0u8]
}

/// Builds the transmission-ready byte sequence for `command` with
/// `payload`, per the command-frame invariants. The one-byte length
/// field limits the payload to 255 bytes; longer payloads are a caller
/// contract violation.
pub fn encode_command(command: u8, payload: &Vec<u8>) -> (frame: Vec<u8>)
    requires
        payload@.len() <= 255,
    ensures
        frame@ == command_frame(command, payload@),
{
    let len: u8 = ((payload.len() + 1) % 256) as u8;
    let lcs: u8 = 0u8.wrapping_sub(len);
    proof {
        vstd::arithmetic::div_mod::lemma_mod_twice((payload@.len() + 1) as int, 256);
        assert(lcs == checksum_of((payload@.len() + 1) as int));
    }
    let mut frame: Vec<u8> = Vec::new();
    frame.push(0x00);
    frame.push(0x00);
    frame.push(0x00);
    frame.push(0xFF);
    frame.push(len);
    frame.push(lcs);
    frame.push(0xD4);
    frame.push(command);

    let mut checksum: u8 = 0xD4;
    checksum = checksum.wrapping_add(command);
    let mut i: usize = 0;
    while i < payload.len()
        invariant
            payload@.len() <= 255,
            0 <= i <= payload@.len(),
            frame@ == seq![
                0u8,
                0u8,
                0u8,
                0xFFu8,
                ((payload@.len() + 1) % 256) as u8,
                checksum_of((payload@.len() + 1) as int) as u8,
                0xD4u8,
                command,
            ] + payload@.subrange(0, i as int),
            checksum == (0xD4 + command + byte_sum(payload@.subrange(0, i as int))) % 256,
        decreases payload@.len() - i,
    {
        proof {
            lemma_byte_sum_extend(payload@, i as int);
            vstd::arithmetic::div_mod::lemma_add_mod_noop(
                0xD4 + command + byte_sum(payload@.subrange(0, i as int)),
                payload@[i as int] as int,
                256,
            );
            vstd::arithmetic::div_mod::lemma_mod_bound(
                0xD4 + command + byte_sum(payload@.subrange(0, i as int)),
                256,
            );
            vstd::arithmetic::div_mod::lemma_small_mod(payload@[i as int] as nat, 256);
        }
        let b = payload[i];
        frame.push(b);
        checksum = checksum.wrapping_add(b);
        proof {
            assert(frame@.drop_last() + payload@.subrange(0, i as int).push(payload@[i as int])
                =~= frame@.drop_last() + payload@.subrange(0, i + 1));
            assert(frame@ =~= seq![
                0u8,
                0u8,
                0u8,
                0xFFu8,
                ((payload@.len() + 1) % 256) as u8,
                checksum_of((payload@.len() + 1) as int) as u8,
                0xD4u8,
                command,
            ] + payload@.subrange(0, i + 1));
        }
        i = i + 1;
    }
    let dcs: u8 = 0u8.wrapping_sub(checksum);
    proof {
        assert(payload@.subrange(0, payload@.len() as int) =~= payload@);
        vstd::arithmetic::div_mod::lemma_mod_twice(0xD4 + command + byte_sum(payload@), 256);
        assert(dcs == checksum_of(0xD4 + command + byte_sum(payload@)));
    }
    frame.push(dcs);
    frame.push(0x00);
    proof {
        assert(frame@ =~= command_frame(command, payload@));
    }
    frame
}

/// Checksum law over the frame itself: in any encoded command frame,
/// the checksum-covered bytes (frame identifier, command code, payload)
/// and the data checksum sum to zero modulo 256.
pub proof fn lemma_command_frame_checksum(command: u8, payload: Seq<u8>)
    ensures
        byte_sum(command_frame(command, payload).subrange(6, 8 + payload.len() as int))
            == 0xD4 + command + byte_sum(payload),
        (byte_sum(command_frame(command, payload).subrange(6, 8 + payload.len() as int))
            + command_frame(command, payload)[8 + payload.len() as int]) % 256 == 0,
{
    let frame = command_frame(command, payload);
    let covered = frame.subrange(6, 8 + payload.len() as int);
    assert(covered =~= seq![0xD4u8, command] + payload);
    lemma_byte_sum_concat(seq![0xD4u8, command], payload);
    assert(byte_sum(seq![0xD4u8, command]) == 0xD4 + command) by {
        assert(seq![0xD4u8, command].drop_last() =~= seq![0xD4u8]);
        assert(seq![0xD4u8].drop_last() =~= Seq::<u8>::empty());
        assert(byte_sum(Seq::<u8>::empty()) == 0);
        assert(byte_sum(seq![0xD4u8]) == 0xD4);
    }
    lemma_checksum_cancels(0xD4 + command + byte_sum(payload));
    assert(frame[8 + payload.len() as int] == checksum_of(0xD4 + command + byte_sum(payload)) as u8);
}

/// The fixed six-byte acknowledgement frame the device emits after
/// accepting a command.
pub open spec fn ack_frame() -> Seq<u8> {
    seq![0u8, 0u8, 0xFFu8, 0u8, 0xFFu8, 0u8]
}

/// Exact byte-for-byte comparison against the acknowledgement constant.
pub fn is_ack(bytes: &Vec<u8>) -> (r: bool)
    ensures
        r == (bytes@ == ack_frame()),
{
    if bytes.len() != 6 {
        return false;
    }
    let r = bytes[0] == 0x00 && bytes[1] == 0x00 && bytes[2] == 0xFF && bytes[3] == 0x00
        && bytes[4] == 0xFF && bytes[5] == 0x00;
    proof {
        if r {
            assert(bytes@ =~= ack_frame());
        }
    }
    r
}

/// The first invariant a five-byte response header violates, if any:
/// fixed start bytes, then the length checksum, then a length big enough
/// to hold the frame identifier and the response code.
pub open spec fn header_violation(h: Seq<u8>) -> Option<ProtocolFault>
    recommends
        h.len() == 5,
{
    if h[0] != 0 || h[1] != 0 || h[2] != 0xFF {
        Some(ProtocolFault::Header)
    } else if (h[3] + h[4]) % 256 != 0 {
        Some(ProtocolFault::LengthChecksum)
    } else if h[3] < 2 {
        Some(ProtocolFault::FrameLength)
    } else {
        None
    }
}

/// Validates a five-byte response header and returns its length byte.
pub fn check_response_header(header: &Vec<u8>) -> (r: Result<u8, ReaderError>)
    requires
        header@.len() == 5,
    ensures
        match r {
            Ok(len) => header_violation(header@) is None && len == header@[3],
            Err(e) => {
                &&& header_violation(header@) matches Some(f) && e == ReaderError::Protocol(f)
            },
        },
{
    if header[0] != 0x00 || header[1] != 0x00 || header[2] != 0xFF {
        return Err(ReaderError::Protocol(ProtocolFault::Header));
    }
    let len = header[3];
    let lcs = header[4];
    if (len as u16 + lcs as u16) % 256 != 0 {
        return Err(ReaderError::Protocol(ProtocolFault::LengthChecksum));
    }
    if len < 2 {
        return Err(ReaderError::Protocol(ProtocolFault::FrameLength));
    }
    Ok(len)
}

/// The response code that acknowledges `expected`: the command code
/// plus one, modulo 256.
pub open spec fn resp_code(expected: u8) -> int {
    (expected + 1) % 256
}

/// The inner data bytes of a response body: everything between the
/// response code and the data checksum.
pub open spec fn body_data(body: Seq<u8>) -> Seq<u8>
    recommends
        body.len() >= 4,
{
    body.subrange(2, body.len() - 2)
}

/// The first invariant a response body violates, if any: device-to-host
/// frame identifier, then the response code, then the data checksum,
/// then the zero postamble.
pub open spec fn body_violation(body: Seq<u8>, expected: u8) -> Option<ProtocolFault>
    recommends
        body.len() >= 4,
{
    let n = body.len() as int;
    if body[0] != 0xD5 {
        Some(ProtocolFault::FrameIdentifier(body[0]))
    } else if body[1] != resp_code(expected) {
        Some(ProtocolFault::ResponseCode(body[1]))
    } else if (byte_sum(body.subrange(0, n - 2)) + body[n - 2]) % 256 != 0 {
        Some(ProtocolFault::DataChecksum(body[n - 2]))
    } else if body[n - 1] != 0 {
        Some(ProtocolFault::Postamble(body[n - 1]))
    } else {
        None
    }
}

/// Validates a response body (frame identifier, response code, data,
/// data checksum, postamble) against the command code `expected` and
/// returns the inner data bytes.
pub fn check_response_body(body: &Vec<u8>, expected: u8) -> (r: Result<Vec<u8>, ReaderError>)
    requires
        body@.len() >= 4,
    ensures
        match r {
            Ok(data) => body_violation(body@, expected) is None && data@ == body_data(body@),
            Err(e) => {
                &&& body_violation(body@, expected) matches Some(f) && e == ReaderError::Protocol(f)
            },
        },
{
    let n = body.len();
    if body[0] != 0xD5 {
        return Err(ReaderError::Protocol(ProtocolFault::FrameIdentifier(body[0])));
    }
    if body[1] != expected.wrapping_add(1) {
        proof {
            if expected < 255 {
                vstd::arithmetic::div_mod::lemma_small_mod((expected + 1) as nat, 256);
            } else {
                vstd::arithmetic::div_mod::lemma_mod_self_0(256);
            }
        }
        return Err(ReaderError::Protocol(ProtocolFault::ResponseCode(body[1])));
    }
    proof {
        if expected < 255 {
            vstd::arithmetic::div_mod::lemma_small_mod((expected + 1) as nat, 256);
        } else {
            vstd::arithmetic::div_mod::lemma_mod_self_0(256);
        }
    }
    let mut checksum: u8 = 0;
    let mut i: usize = 0;
    proof {
        assert(body@.subrange(0, 0) =~= Seq::<u8>::empty());
        vstd::arithmetic::div_mod::lemma_mod_self_0(256);
        assert(byte_sum(body@.subrange(0, 0)) == 0);
    }
    while i < n - 2
        invariant
            body@.len() >= 4,
            n == body@.len(),
            0 <= i <= n - 2,
            checksum == byte_sum(body@.subrange(0, i as int)) % 256,
        decreases n - 2 - i,
    {
        proof {
            lemma_byte_sum_extend(body@, i as int);
            vstd::arithmetic::div_mod::lemma_add_mod_noop(
                byte_sum(body@.subrange(0, i as int)),
                body@[i as int] as int,
                256,
            );
            vstd::arithmetic::div_mod::lemma_mod_bound(
                byte_sum(body@.subrange(0, i as int)),
                256,
            );
            vstd::arithmetic::div_mod::lemma_small_mod(body@[i as int] as nat, 256);
        }
        checksum = checksum.wrapping_add(body[i]);
        i = i + 1;
    }
    let dcs = body[n - 2];
    proof {
        vstd::arithmetic::div_mod::lemma_add_mod_noop(
            byte_sum(body@.subrange(0, n - 2)),
            dcs as int,
            256,
        );
        vstd::arithmetic::div_mod::lemma_mod_bound(byte_sum(body@.subrange(0, n - 2)), 256);
        vstd::arithmetic::div_mod::lemma_small_mod(dcs as nat, 256);
        vstd::arithmetic::div_mod::lemma_mod_twice(
            byte_sum(body@.subrange(0, n - 2)) + dcs,
            256,
        );
    }
    if checksum.wrapping_add(dcs) != 0 {
        return Err(ReaderError::Protocol(ProtocolFault::DataChecksum(dcs)));
    }
    if body[n - 1] != 0x00 {
        return Err(ReaderError::Protocol(ProtocolFault::Postamble(body[n - 1])));
    }
    let mut data: Vec<u8> = Vec::new();
    let mut j: usize = 2;
    while j < n - 2
        invariant
            body@.len() >= 4,
            n == body@.len(),
            2 <= j <= n - 2,
            data@ == body@.subrange(2, j as int),
        decreases n - 2 - j,
    {
        data.push(body[j]);
        proof {
            assert(data@ =~= body@.subrange(2, j + 1));
        }
        j = j + 1;
    }
    proof {
        assert(data@ =~= body_data(body@));
    }
    Ok(data)
}

/// The first invariant a complete response frame violates, if any,
/// checked in protocol order: header, structural length, then body.
pub open spec fn resp_violation(frame: Seq<u8>, expected: u8) -> Option<ProtocolFault> {
    if frame.len() < 5 {
        Some(ProtocolFault::Header)
    } else if header_violation(frame.subrange(0, 5)) is Some {
        header_violation(frame.subrange(0, 5))
    } else if frame.len() != 7 + frame[3] {
        Some(ProtocolFault::FrameLength)
    } else {
        body_violation(frame.subrange(5, frame.len() as int), expected)
    }
}

/// A response frame is accepted exactly when it violates nothing.
pub open spec fn resp_well_formed(frame: Seq<u8>, expected: u8) -> bool {
    resp_violation(frame, expected) is None
}

/// The inner data bytes of a complete, well-formed response frame.
pub open spec fn resp_data(frame: Seq<u8>) -> Seq<u8>
    recommends
        frame.len() >= 9,
{
    frame.subrange(7, frame.len() - 2)
}

/// Validates a complete response frame against the command code
/// `expected` and returns only the inner data bytes, with everything
/// else stripped. Fails fast with the first violated invariant.
pub fn decode_response(frame: &Vec<u8>, expected: u8) -> (r: Result<Vec<u8>, ReaderError>)
    ensures
        match r {
            Ok(data) => resp_well_formed(frame@, expected) && data@ == resp_data(frame@),
            Err(e) => {
                &&& resp_violation(frame@, expected) matches Some(f) && e == ReaderError::Protocol(
                    f,
                )
            },
        },
{
    if frame.len() < 5 {
        return Err(ReaderError::Protocol(ProtocolFault::Header));
    }
    let mut header: Vec<u8> = Vec::new();
    let mut i: usize = 0;
    while i < 5
        invariant
            frame@.len() >= 5,
            0 <= i <= 5,
            header@ == frame@.subrange(0, i as int),
        decreases 5 - i,
    {
        header.push(frame[i]);
        proof {
            assert(header@ =~= frame@.subrange(0, i + 1));
        }
        i = i + 1;
    }
    let len = match check_response_header(&header) {
        Ok(len) => len,
        Err(e) => {
            return Err(e);
        },
    };
    if frame.len() != 7 + len as usize {
        return Err(ReaderError::Protocol(ProtocolFault::FrameLength));
    }
    let mut body: Vec<u8> = Vec::new();
    let mut j: usize = 5;
    while j < frame.len()
        invariant
            frame@.len() >= 5,
            5 <= j <= frame@.len(),
            body@ == frame@.subrange(5, j as int),
        decreases frame@.len() - j,
    {
        body.push(frame[j]);
        proof {
            assert(body@ =~= frame@.subrange(5, j + 1));
        }
        j = j + 1;
    }
    proof {
        assert(body@ =~= frame@.subrange(5, frame@.len() as int));
    }
    match check_response_body(&body, expected) {
        Ok(data) => {
            proof {
                assert(body_data(body@) =~= resp_data(frame@));
            }
            Ok(data)
        },
        Err(e) => Err(e),
    }
}

/// A nonzero difference smaller than the modulus cannot vanish mod 256.
pub proof fn lemma_small_nonzero_mod(d: int)
    requires
        -256 < d < 256,
        d != 0,
    ensures
        d % 256 != 0,
{
    if d > 0 {
        vstd::arithmetic::div_mod::lemma_small_mod(d as nat, 256);
    } else {
        vstd::arithmetic::div_mod::lemma_mod_add_multiples_vanish(d, 256);
        vstd::arithmetic::div_mod::lemma_small_mod((d + 256) as nat, 256);
    }
}

/// Two values that both vanish mod 256 and lie within one modulus of
/// each other are equal.
pub proof fn lemma_same_cancel_mod(u: int, v: int)
    requires
        u % 256 == 0,
        v % 256 == 0,
        -256 < u - v < 256,
    ensures
        u == v,
{
    vstd::arithmetic::div_mod::lemma_sub_mod_noop(u, v, 256);
    vstd::arithmetic::div_mod::lemma_small_mod(0nat, 256);
    if u != v {
        lemma_small_nonzero_mod(u - v);
    }
}

/// The well-formed response frame with which the device answers
/// `command`, carrying `data`: the mirror of a command frame, with the
/// device-to-host frame identifier and the response code of `command`.
pub open spec fn mirror_response(command: u8, data: Seq<u8>) -> Seq<u8>
    recommends
        data.len() <= 253,
{
    seq![
        0u8,
        0u8,
        0xFFu8,
        ((data.len() + 2) % 256) as u8,
        checksum_of((data.len() + 2) as int) as u8,
        0xD5u8,
        resp_code(command) as u8,
    ] + data + seq![checksum_of(0xD5 + resp_code(command) + byte_sum(data)) as u8, 0u8]
}

/// Round trip: the mirrored response that echoes `command` with a
/// payload is accepted by the decoder, and decoding it yields exactly
/// that payload.
pub proof fn lemma_response_round_trip(command: u8, data: Seq<u8>)
    requires
        data.len() <= 253,
    ensures
        resp_well_formed(mirror_response(command, data), command),
        resp_data(mirror_response(command, data)) == data,
{
    let frame = mirror_response(command, data);
    let n = frame.len() as int;
    assert(n == 9 + data.len());
    vstd::arithmetic::div_mod::lemma_small_mod((data.len() + 2) as nat, 256);
    assert(frame[3] == data.len() + 2);
    lemma_checksum_cancels((data.len() + 2) as int);
    vstd::arithmetic::div_mod::lemma_mod_bound(command + 1, 256);
    let h = frame.subrange(0, 5);
    assert(h[0] == 0 && h[1] == 0 && h[2] == 0xFF);
    assert((h[3] + h[4]) % 256 == 0);
    assert(header_violation(h) is None);
    assert(frame.len() == 7 + frame[3]);
    let body = frame.subrange(5, n);
    assert(body.len() == data.len() + 4);
    assert(body[0] == 0xD5);
    assert(body[1] == resp_code(command));
    let code = resp_code(command) as u8;
    assert(body.subrange(0, body.len() - 2) =~= seq![0xD5u8, code] + data);
    lemma_byte_sum_concat(seq![0xD5u8, code], data);
    assert(byte_sum(seq![0xD5u8, code]) == 0xD5 + code) by {
        assert(seq![0xD5u8, code].drop_last() =~= seq![0xD5u8]);
        assert(seq![0xD5u8].drop_last() =~= Seq::<u8>::empty());
        assert(byte_sum(Seq::<u8>::empty()) == 0);
        assert(byte_sum(seq![0xD5u8]) == 0xD5);
    }
    lemma_checksum_cancels(0xD5 + resp_code(command) + byte_sum(data));
    assert(body[body.len() - 2] == checksum_of(0xD5 + resp_code(command) + byte_sum(data)) as u8);
    assert((byte_sum(body.subrange(0, body.len() - 2)) + body[body.len() - 2]) % 256 == 0);
    assert(body[body.len() - 1] == 0);
    assert(body_violation(body, command) is None);
    assert(resp_data(frame) =~= data);
}

/// Corrupting any single byte of a well-formed response frame makes the
/// decoder reject it: no corrupted frame passes every check.
pub proof fn lemma_single_byte_corruption(frame: Seq<u8>, expected: u8, i: int, b: u8)
    requires
        resp_well_formed(frame, expected),
        0 <= i < frame.len(),
        b != frame[i],
    ensures
        resp_violation(frame.update(i, b), expected) is Some,
{
    let g = frame.update(i, b);
    let n = frame.len() as int;
    let len = frame[3] as int;
    assert(header_violation(frame.subrange(0, 5)) is None);
    assert(n == 7 + len);
    let fb = frame.subrange(5, n);
    assert(body_violation(fb, expected) is None);
    if resp_violation(g, expected) is None {
        assert(header_violation(g.subrange(0, 5)) is None);
        let gb = g.subrange(5, n);
        assert(body_violation(gb, expected) is None);
        if i < 3 {
            assert(g.subrange(0, 5)[i] == b);
            assert(false);
        } else if i == 3 {
            assert((frame[3] + frame[4]) % 256 == 0);
            assert(g.subrange(0, 5)[3] == b && g.subrange(0, 5)[4] == frame[4]);
            assert((b + frame[4]) % 256 == 0);
            lemma_same_cancel_mod(frame[3] + frame[4], b + frame[4]);
            assert(false);
        } else if i == 4 {
            assert((frame[3] + frame[4]) % 256 == 0);
            assert(g.subrange(0, 5)[3] == frame[3] && g.subrange(0, 5)[4] == b);
            assert((frame[3] + b) % 256 == 0);
            lemma_same_cancel_mod(frame[3] + frame[4], frame[3] + b);
            assert(false);
        } else if i == 5 {
            assert(gb[0] == b && fb[0] == 0xD5);
            assert(false);
        } else if i == 6 {
            assert(gb[1] == b && fb[1] == resp_code(expected));
            assert(false);
        } else if i < n - 2 {
            let covered = fb.subrange(0, len);
            let gcovered = gb.subrange(0, len);
            assert(gcovered =~= covered.update(i - 5, b));
            lemma_byte_sum_update(covered, i - 5, b);
            assert(gb[gb.len() - 2] == frame[n - 2]);
            assert((byte_sum(covered) + frame[n - 2]) % 256 == 0);
            assert((byte_sum(gcovered) + frame[n - 2]) % 256 == 0);
            assert(covered[i - 5] == frame[i]);
            lemma_same_cancel_mod(
                byte_sum(gcovered) + frame[n - 2],
                byte_sum(covered) + frame[n - 2],
            );
            assert(false);
        } else if i == n - 2 {
            let covered = fb.subrange(0, len);
            assert(gb.subrange(0, len) =~= covered);
            assert(gb[gb.len() - 2] == b && fb[fb.len() - 2] == frame[n - 2]);
            assert((byte_sum(covered) + frame[n - 2]) % 256 == 0);
            assert((byte_sum(covered) + b) % 256 == 0);
            lemma_same_cancel_mod(byte_sum(covered) + frame[n - 2], byte_sum(covered) + b);
            assert(false);
        } else {
            assert(i == n - 1);
            assert(gb[gb.len() - 1] == b && fb[fb.len() - 1] == 0);
            assert(false);
        }
    }
}

/// Validating a five-byte header and then its body separately, as the
/// driver reads them off the bus, accepts exactly the frames that
/// [`decode_response`] accepts whole, and yields the same data.
pub proof fn lemma_split_decode(header: Seq<u8>, body: Seq<u8>, expected: u8)
    requires
        header.len() == 5,
        header_violation(header) is None,
        body.len() == header[3] + 2,
    ensures
        resp_violation(header + body, expected) == body_violation(body, expected),
        body_violation(body, expected) is None ==> resp_data(header + body) == body_data(body),
{
    let frame = header + body;
    assert(frame.subrange(0, 5) =~= header);
    assert(frame.len() == 7 + frame[3]);
    assert(frame.subrange(5, frame.len() as int) =~= body);
    if body_violation(body, expected) is None {
        assert(resp_data(frame) =~= body_data(body));
    }
}

} // verus!
