use sensor_relay::controller::{reading_text, step, Input, Output, Phase, Reading};
use sensor_relay::crc::{append_crc, check_crc, crc16};
use sensor_relay::modbus::{build_request, decide, decode_response, PollError, RelayState};

fn framed(payload: &[u8]) -> Vec<u8> {
    let mut frame = payload.to_vec();
    append_crc(&mut frame);
    frame
}

#[test]
fn crc16_check_value() {
    assert_eq!(crc16(b"123456789"), 0x4B37);
}

#[test]
fn crc16_of_nothing_is_initial_value() {
    assert_eq!(crc16(&[]), 0xFFFF);
}

#[test]
fn crc16_of_known_request() {
    assert_eq!(crc16(&[0x01, 0x04, 0x00, 0x01, 0x00, 0x01]), 0x0A60);
}

#[test]
fn crc_round_trip_on_payloads() {
    let payloads: [&[u8]; 4] = [&[0x00], &[0x01, 0x04, 0x02, 0x01, 0x0E], &[0xFF; 30], b"hello"];
    for p in payloads {
        let crc = crc16(p);
        let mut frame = p.to_vec();
        frame.extend_from_slice(&crc.to_le_bytes());
        assert!(check_crc(&frame));
    }
}

#[test]
fn crc_round_trip_fails_without_payload() {
    let crc = crc16(&[]);
    assert!(!check_crc(&crc.to_le_bytes()));
}

#[test]
fn check_crc_rejects_short_frames() {
    assert!(!check_crc(&[]));
    assert!(!check_crc(&[0x01]));
    assert!(!check_crc(&[0x01, 0x02]));
}

#[test]
fn single_bit_flips_are_detected() {
    let frame = framed(&[0x01, 0x04, 0x02, 0x01, 0x0E]);
    assert!(check_crc(&frame));
    for i in 0..frame.len() {
        for bit in 0..8 {
            let mut tampered = frame.clone();
            tampered[i] ^= 1 << bit;
            assert!(!check_crc(&tampered));
        }
    }
}

#[test]
fn append_crc_adds_low_byte_first() {
    let frame = framed(&[0x01, 0x04, 0x00, 0x01, 0x00, 0x01]);
    assert_eq!(frame, vec![0x01, 0x04, 0x00, 0x01, 0x00, 0x01, 0x60, 0x0A]);
}

#[test]
fn request_frame_layout() {
    assert_eq!(build_request(1, 1, 1), vec![0x01, 0x04, 0x00, 0x01, 0x00, 0x01, 0x60, 0x0A]);
    let other = build_request(0x11, 0x1234, 0x0102);
    assert_eq!(&other[..6], &[0x11, 0x04, 0x12, 0x34, 0x01, 0x02]);
    assert_eq!(other.len(), 8);
    assert!(check_crc(&other));
}

#[test]
fn response_is_decoded_big_endian() {
    let resp = framed(&[0x01, 0x04, 0x02, 0x01, 0x0E]);
    assert_eq!(resp.len(), 7);
    assert_eq!(decode_response(&resp), Ok(0x010E));
}

#[test]
fn response_of_length_six_is_rejected() {
    let resp = framed(&[0x01, 0x04, 0x02, 0x01]);
    assert_eq!(resp.len(), 6);
    assert!(check_crc(&resp));
    assert_eq!(decode_response(&resp), Err(PollError::Short));
}

#[test]
fn exception_response_is_rejected_with_valid_crc() {
    let resp = framed(&[0x01, 0x84, 0x02, 0x01, 0x0E]);
    assert!(check_crc(&resp));
    assert_eq!(decode_response(&resp), Err(PollError::Exception));
}

#[test]
fn wrong_byte_count_is_rejected_with_valid_crc() {
    let resp = framed(&[0x01, 0x04, 0x04, 0x01, 0x0E]);
    assert!(check_crc(&resp));
    assert_eq!(decode_response(&resp), Err(PollError::Malformed));
}

#[test]
fn failed_crc_is_rejected() {
    let mut resp = framed(&[0x01, 0x04, 0x02, 0x01, 0x0E]);
    resp[6] ^= 0xFF;
    assert_eq!(decode_response(&resp), Err(PollError::CrcMismatch));
}

#[test]
fn empty_response_is_short() {
    assert_eq!(decode_response(&[]), Err(PollError::Short));
}

#[test]
fn relay_threshold_is_strict() {
    assert_eq!(decide(270), RelayState::Off);
    assert_eq!(decide(271), RelayState::On);
    assert_eq!(decide(0), RelayState::Off);
    assert_eq!(decide(u16::MAX), RelayState::On);
}

#[test]
fn controller_full_cycle_emits_reading() {
    let (p, out) = step(Phase::Start, &Input::Elapsed);
    assert_eq!(p, Phase::AwaitHumidity);
    assert_eq!(out, Output::Poll { slave_id: 1, register: 1, count: 1 });
    let rh = framed(&[0x01, 0x04, 0x02, 0x02, 0x58]);
    let (p, out) = step(p, &Input::Response(rh));
    assert_eq!(p, Phase::Settle { humidity: Some(600) });
    assert_eq!(out, Output::Wait { millis: 100, reading: None });
    let (p, out) = step(p, &Input::Elapsed);
    assert_eq!(p, Phase::AwaitTemperature { humidity: Some(600) });
    assert_eq!(out, Output::Poll { slave_id: 1, register: 2, count: 1 });
    let t = framed(&[0x01, 0x04, 0x02, 0x01, 0x18]);
    let (p, out) = step(p, &Input::Response(t));
    assert_eq!(p, Phase::Rest);
    assert_eq!(
        out,
        Output::Wait {
            millis: 2000,
            reading: Some(Reading {
                humidity_tenths: 600,
                temperature_tenths: 280,
                relay: RelayState::On
            })
        }
    );
    let (p, out) = step(p, &Input::Elapsed);
    assert_eq!(p, Phase::AwaitHumidity);
    assert_eq!(out, Output::Poll { slave_id: 1, register: 1, count: 1 });
}

#[test]
fn controller_skips_cycle_when_a_poll_fails() {
    let (p, _) = step(Phase::AwaitHumidity, &Input::Response(vec![0x01, 0x04]));
    assert_eq!(p, Phase::Settle { humidity: None });
    let t = framed(&[0x01, 0x04, 0x02, 0x01, 0x18]);
    let (p, out) = step(Phase::AwaitTemperature { humidity: None }, &Input::Response(t));
    assert_eq!(p, Phase::Rest);
    assert_eq!(out, Output::Wait { millis: 2000, reading: None });
    let (p, out) = step(Phase::AwaitTemperature { humidity: Some(1) }, &Input::Elapsed);
    assert_eq!(p, Phase::Rest);
    assert_eq!(out, Output::Wait { millis: 2000, reading: None });
}

#[test]
fn reading_is_printed_with_one_decimal() {
    let r = Reading { humidity_tenths: 600, temperature_tenths: 285, relay: RelayState::On };
    assert_eq!(reading_text(&r), "RH:60.0,T:28.5");
    let r = Reading { humidity_tenths: 7, temperature_tenths: 65535, relay: RelayState::On };
    assert_eq!(reading_text(&r), "RH:0.7,T:6553.5");
    for raw in [0u16, 1, 9, 10, 99, 270, 271, 1000, 12345, 65535] {
        let r = Reading { humidity_tenths: raw, temperature_tenths: raw, relay: decide(raw) };
        let as_float = format!("{:.1}", raw as f32 / 10.0);
        assert_eq!(reading_text(&r), format!("RH:{},T:{}", as_float, as_float));
    }
}

#[test]
fn threshold_in_tenths_agrees_with_degrees() {
    for raw in 0..=u16::MAX {
        let degrees = raw as f32 / 10.0;
        let expected = if degrees > 27.0 { RelayState::On } else { RelayState::Off };
        assert_eq!(decide(raw), expected);
    }
}
