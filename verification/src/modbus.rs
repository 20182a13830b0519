//! The read-input-registers poll: request framing, response gates, and the
//! relay threshold applied to a temperature reading.

use vstd::prelude::*;
use crate::crc::{append_crc, check_crc, crc16_spec, frame_valid, le_bytes, lemma_crc_round_trip};

verus! {

/// Function code "read input registers".
pub const READ_INPUT_REGISTERS: u8 = 0x04;

/// Shortest response that can carry one register.
pub const MIN_RESPONSE_LEN: usize = 7;

/// Relay threshold in tenths of a degree Celsius (27.0 degrees).
pub const RELAY_THRESHOLD_TENTHS: u16 = 270;

/// Why a response was not accepted. The gates are tried in this order.
#[derive(Clone, Copy, Debug, PartialEq, Eq, Structural)]
pub enum PollError {
    /// Fewer than seven bytes came back.
    Short,
    /// The function-code byte has its high bit set.
    Exception,
    /// The byte-count field is not two.
    Malformed,
    /// The CRC16 trailer does not match.
    CrcMismatch,
}

/// State applied to both relay outputs.
#[derive(Clone, Copy, Debug, PartialEq, Eq, Structural)]
pub enum RelayState {
    On,
    Off,
}

/// The six header bytes of a request, before the CRC.
pub open spec fn request_header(slave_id: u8, address: u16, count: u16) -> Seq<u8> {
    seq![
        slave_id,
        READ_INPUT_REGISTERS,
        (address >> 8) as u8,
        (address & 0xFF) as u8,
        (count >> 8) as u8,
        (count & 0xFF) as u8,
    ]
}

/// The full eight-byte request frame.
pub open spec fn request_frame(slave_id: u8, address: u16, count: u16) -> Seq<u8> {
    request_header(slave_id, address, count) + le_bytes(
        crc16_spec(request_header(slave_id, address, count)),
    )
}

/// A big-endian 16-bit value.
pub open spec fn be_u16(hi: u8, lo: u8) -> u16 {
    ((hi as u16) << 8) | (lo as u16)
}

/// What a response decodes to: the register at offsets 3 and 4 when every gate
/// passes, else the first gate that fails.
pub open spec fn decode_spec(resp: Seq<u8>) -> Result<u16, PollError> {
    if resp.len() < MIN_RESPONSE_LEN {
        Err(PollError::Short)
    } else if resp[1] & 0x80 != 0 {
        Err(PollError::Exception)
    } else if resp[2] != 2 {
        Err(PollError::Malformed)
    } else if !frame_valid(resp) {
        Err(PollError::CrcMismatch)
    } else {
        Ok(be_u16(resp[3], resp[4]))
    }
}

/// Builds the request frame for reading `count` registers at `address`.
pub fn build_request(slave_id: u8, address: u16, count: u16) -> (frame: Vec<u8>)
    ensures
        frame@ == request_frame(slave_id, address, count),
        frame@.len() == 8,
        frame_valid(frame@),
{
    let mut frame: Vec<u8> = Vec::new();
    frame.push(slave_id);
    frame.push(READ_INPUT_REGISTERS);
    frame.push((address >> 8) as u8);
    frame.push((address & 0xFF) as u8);
    frame.push((count >> 8) as u8);
    frame.push((count & 0xFF) as u8);
    proof {
        assert(frame@ =~= request_header(slave_id, address, count));
        lemma_crc_round_trip(frame@);
    }
    append_crc(&mut frame);
    frame
}

/// Checks a response and extracts its register value.
pub fn decode_response(resp: &[u8]) -> (r: Result<u16, PollError>)
    ensures
        r == decode_spec(resp@),
{
    if resp.len() < MIN_RESPONSE_LEN {
        return Err(PollError::Short);
    }
    if resp[1] & 0x80 != 0 {
        return Err(PollError::Exception);
    }
    if resp[2] != 2 {
        return Err(PollError::Malformed);
    }
    if !check_crc(resp) {
        return Err(PollError::CrcMismatch);
    }
    Ok(((resp[3] as u16) << 8) | (resp[4] as u16))
}

/// The threshold rule over a temperature in tenths of a degree.
pub open spec fn decide_spec(temperature_tenths: u16) -> RelayState {
    if temperature_tenths > RELAY_THRESHOLD_TENTHS {
        RelayState::On
    } else {
        RelayState::Off
    }
}

/// Relay state for a temperature register (tenths of a degree): on strictly
/// above 27.0 degrees, off at or below it.
pub fn decide(temperature_tenths: u16) -> (state: RelayState)
    ensures
        state == decide_spec(temperature_tenths),
{
    if temperature_tenths > RELAY_THRESHOLD_TENTHS {
        RelayState::On
    } else {
        RelayState::Off
    }
}

/// A response is rejected when it is too short, is an exception response, or
/// has a byte count other than two, whether or not its CRC matches.
pub proof fn lemma_rejected_whatever_crc(resp: Seq<u8>)
    requires
        resp.len() < 7 || resp[1] & 0x80 != 0 || resp[2] != 2,
    ensures
        decode_spec(resp) is Err,
        decode_spec(resp) != Err::<u16, PollError>(PollError::CrcMismatch),
{
}

/// A response is accepted exactly when all four gates pass.
pub proof fn lemma_accepted_iff(resp: Seq<u8>)
    ensures
        decode_spec(resp) is Ok <==> (resp.len() >= 7 && resp[1] & 0x80 == 0 && resp[2] == 2
            && frame_valid(resp)),
{
}

} // verus!
