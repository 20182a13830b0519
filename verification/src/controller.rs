//! The field controller's cycle as a transition function: poll humidity,
//! settle, poll temperature, emit the pair and the relay state, rest.

use vstd::prelude::*;
use crate::modbus::{decide, decide_spec, decode_response, decode_spec, RelayState};
use crate::text::{append_decimal, append_str, decimal, to_string};

verus! {

/// The slave that is polled.
pub const SLAVE_ID: u8 = 1;

/// Register that holds the relative humidity, in tenths of a percent.
pub const HUMIDITY_REGISTER: u16 = 1;

/// Register that holds the temperature, in tenths of a degree Celsius.
pub const TEMPERATURE_REGISTER: u16 = 2;

/// Pause between the two polls of a cycle, in milliseconds.
pub const SETTLE_MS: u32 = 100;

/// Pause after a cycle, in milliseconds.
pub const CYCLE_MS: u32 = 2000;

/// Where the controller stands in its cycle.
#[derive(Clone, Copy, Debug, PartialEq, Eq)]
pub enum Phase {
    /// Nothing was sent yet.
    Start,
    /// The humidity request is out.
    AwaitHumidity,
    /// The pause between the polls runs; the humidity poll gave this.
    Settle { humidity: Option<u16> },
    /// The temperature request is out.
    AwaitTemperature { humidity: Option<u16> },
    /// The pause after the cycle runs.
    Rest,
}

/// What the transport reports back after an output was carried out.
#[derive(Clone, Debug)]
pub enum Input {
    /// The bytes that came back for a poll; empty when nothing came.
    Response(Vec<u8>),
    /// A pause is over.
    Elapsed,
}

/// A pair of register values with the relay state that follows from it.
#[derive(Clone, Copy, Debug, PartialEq, Eq)]
pub struct Reading {
    pub humidity_tenths: u16,
    pub temperature_tenths: u16,
    pub relay: RelayState,
}

/// What the transport is to do next.
#[derive(Clone, Copy, Debug, PartialEq, Eq)]
pub enum Output {
    /// Send the request for these registers, flush, and read the response.
    Poll { slave_id: u8, register: u16, count: u16 },
    /// When a reading is given, print it and drive both relays to its state;
    /// then pause.
    Wait { millis: u32, reading: Option<Reading> },
}

/// The register value that an input carries, if it carries a valid response.
pub open spec fn polled(input: Input) -> Option<u16> {
    match input {
        Input::Response(bytes) => match decode_spec(bytes@) {
            Ok(v) => Some(v),
            Err(_) => None,
        },
        Input::Elapsed => None,
    }
}

/// The reading of a cycle: present only when both polls gave a value.
pub open spec fn cycle_reading(humidity: Option<u16>, temperature: Option<u16>) -> Option<Reading> {
    if humidity is Some && temperature is Some {
        Some(
            Reading {
                humidity_tenths: humidity->0,
                temperature_tenths: temperature->0,
                relay: decide_spec(temperature->0),
            },
        )
    } else {
        None
    }
}

/// The transition: next phase and output for a phase and an input.
pub open spec fn step_spec(phase: Phase, input: Input) -> (Phase, Output) {
    match phase {
        Phase::Start | Phase::Rest => (
            Phase::AwaitHumidity,
            Output::Poll { slave_id: SLAVE_ID, register: HUMIDITY_REGISTER, count: 1 },
        ),
        Phase::AwaitHumidity => (
            Phase::Settle { humidity: polled(input) },
            Output::Wait { millis: SETTLE_MS, reading: None },
        ),
        Phase::Settle { humidity } => (
            Phase::AwaitTemperature { humidity },
            Output::Poll { slave_id: SLAVE_ID, register: TEMPERATURE_REGISTER, count: 1 },
        ),
        Phase::AwaitTemperature { humidity } => (
            Phase::Rest,
            Output::Wait { millis: CYCLE_MS, reading: cycle_reading(humidity, polled(input)) },
        ),
    }
}

fn poll_value(input: &Input) -> (v: Option<u16>)
    ensures
        v == polled(*input),
{
    match input {
        Input::Response(bytes) => match decode_response(bytes.as_slice()) {
            Ok(v) => Some(v),
            Err(_) => None,
        },
        Input::Elapsed => None,
    }
}

/// Advances the cycle by one input.
pub fn step(phase: Phase, input: &Input) -> (r: (Phase, Output))
    ensures
        r == step_spec(phase, *input),
{
    match phase {
        Phase::Start | Phase::Rest => (
            Phase::AwaitHumidity,
            Output::Poll { slave_id: SLAVE_ID, register: HUMIDITY_REGISTER, count: 1 },
        ),
        Phase::AwaitHumidity => (
            Phase::Settle { humidity: poll_value(input) },
            Output::Wait { millis: SETTLE_MS, reading: None },
        ),
        Phase::Settle { humidity } => (
            Phase::AwaitTemperature { humidity },
            Output::Poll { slave_id: SLAVE_ID, register: TEMPERATURE_REGISTER, count: 1 },
        ),
        Phase::AwaitTemperature { humidity } => {
            let reading = match (humidity, poll_value(input)) {
                (Some(h), Some(t)) => Some(
                    Reading { humidity_tenths: h, temperature_tenths: t, relay: decide(t) },
                ),
                _ => None,
            };
            (Phase::Rest, Output::Wait { millis: CYCLE_MS, reading })
        },
    }
}

/// A register value in tenths as decimal text with one digit after the point.
pub open spec fn tenths_text(value: u16) -> Seq<char> {
    decimal((value / 10) as nat) + seq!['.'] + decimal((value % 10) as nat)
}

/// The line that a reading is printed as: `RH:<humidity>,T:<temperature>`.
pub open spec fn reading_text_spec(reading: Reading) -> Seq<char> {
    "RH:"@ + tenths_text(reading.humidity_tenths) + ",T:"@ + tenths_text(
        reading.temperature_tenths,
    )
}

fn append_tenths(out: &mut Vec<char>, value: u16)
    ensures
        final(out)@ == old(out)@ + tenths_text(value),
{
    append_decimal(out, (value / 10) as u128);
    out.push('.');
    append_decimal(out, (value % 10) as u128);
    proof {
        assert(final(out)@ =~= old(out)@ + tenths_text(value));
    }
}

/// Formats a reading for the serial line, one digit after each point.
pub fn reading_text(reading: &Reading) -> (line: String)
    ensures
        line@ == reading_text_spec(*reading),
{
    let mut out: Vec<char> = Vec::new();
    append_str(&mut out, "RH:");
    append_tenths(&mut out, reading.humidity_tenths);
    append_str(&mut out, ",T:");
    append_tenths(&mut out, reading.temperature_tenths);
    proof {
        assert(out@ =~= reading_text_spec(*reading));
    }
    to_string(&out)
}

/// A reading goes out only at the end of a cycle in which both polls were
/// accepted, and its relay state is the threshold rule applied to its
/// temperature.
pub proof fn lemma_reading_needs_both_polls(phase: Phase, input: Input)
    ensures
        match step_spec(phase, input).1 {
            Output::Wait { reading: Some(r), .. } => {
                &&& phase matches Phase::AwaitTemperature { humidity: Some(h) }
                &&& r.humidity_tenths == h
                &&& polled(input) == Some(r.temperature_tenths)
                &&& r.relay == decide_spec(r.temperature_tenths)
            },
            _ => true,
        },
{
}

/// Every cycle ends in the same pause, whether or not its polls succeeded.
pub proof fn lemma_cycle_always_rests(humidity: Option<u16>, input: Input)
    ensures
        step_spec(Phase::AwaitTemperature { humidity }, input).0 == Phase::Rest,
        step_spec(Phase::AwaitTemperature { humidity }, input).1 matches Output::Wait {
            millis,
            ..
        } && millis == CYCLE_MS,
{
}

} // verus!
