//! Store-and-forward as a transition function: post the record, query the
//! latest point back, publish it. The transport carries out each command and
//! reports what happened.

use vstd::prelude::*;
use crate::store::{csv_records, latest_of, parse_latest, payload_spec, telemetry_payload, QueryError};

verus! {

/// Topic that telemetry is published to.
pub open spec fn telemetry_topic() -> Seq<char> {
    "v1/devices/me/telemetry"@
}

/// The topic that telemetry is published to.
pub fn topic() -> (t: &'static str)
    ensures
        t@ == telemetry_topic(),
{
    "v1/devices/me/telemetry"
}

/// Where a relay stands.
#[derive(Clone, Copy, Debug, PartialEq, Eq)]
pub enum Stage {
    /// No record is under way.
    Idle,
    /// The record was handed to the store's write endpoint.
    Writing,
    /// The query for the latest point is out.
    Querying,
    /// The payload was handed to the broker.
    Publishing,
}

/// What the transport reports.
#[derive(Clone, Debug)]
pub enum Event {
    /// A record is ready to be relayed.
    Record { line: String },
    /// The store answered with this status and body.
    HttpReply { status: u16, body: String },
    /// The store could not be reached.
    HttpFailed,
    /// The broker took the payload.
    Published,
    /// Connecting to the broker or publishing failed.
    PublishFailed,
}

/// Why a relay ended without a publish.
#[derive(Clone, Debug)]
pub enum RelayError {
    /// The store refused the record.
    WriteError { status: u16, body: String },
    /// The record could not be sent.
    WriteUnsent,
    /// The store refused the query.
    QueryRejected { status: u16, body: String },
    /// The query could not be sent.
    QueryUnsent,
    /// The query's answer holds no latest point.
    QueryError(QueryError),
    /// The broker did not take the payload.
    PublishError,
}

/// What the transport is to do next.
#[derive(Clone, Debug)]
pub enum Command {
    /// Post this record to the write endpoint.
    Post { line: String },
    /// Post the query for the latest point.
    Query,
    /// Publish this payload, at least once.
    Publish { payload: String },
    /// The relay is done.
    Done,
    /// The relay failed; log the error and go on with the next line.
    Fail(RelayError),
    /// The event does not belong to this stage; nothing is to be done.
    Ignore,
}

/// Any status from 200 to 299.
pub open spec fn is_success(status: u16) -> bool {
    200 <= status < 300
}

/// The transition, as a relation between a stage and an event and the next
/// stage and command.
pub open spec fn relay_next(stage: Stage, event: Event, next: Stage, command: Command) -> bool {
    match (stage, event) {
        (Stage::Idle, Event::Record { line }) => {
            &&& next == Stage::Writing
            &&& command matches Command::Post { line: l }
            &&& l@ == line@
        },
        (Stage::Writing, Event::HttpReply { status, body }) => if is_success(status) {
            next == Stage::Querying && command is Query
        } else {
            &&& next == Stage::Idle
            &&& command matches Command::Fail(RelayError::WriteError { status: s, body: b })
            &&& s == status
            &&& b@ == body@
        },
        (Stage::Writing, Event::HttpFailed) => {
            next == Stage::Idle && command matches Command::Fail(RelayError::WriteUnsent)
        },
        (Stage::Querying, Event::HttpReply { status, body }) => if !is_success(status) {
            &&& next == Stage::Idle
            &&& command matches Command::Fail(RelayError::QueryRejected { status: s, body: b })
            &&& s == status
            &&& b@ == body@
        } else {
            match latest_of(csv_records(body@)) {
                Ok(latest) => {
                    &&& next == Stage::Publishing
                    &&& command matches Command::Publish { payload }
                    &&& payload@ == payload_spec(latest)
                },
                Err(e) => {
                    &&& next == Stage::Idle
                    &&& command matches Command::Fail(RelayError::QueryError(q))
                    &&& q == e
                },
            }
        },
        (Stage::Querying, Event::HttpFailed) => {
            next == Stage::Idle && command matches Command::Fail(RelayError::QueryUnsent)
        },
        (Stage::Publishing, Event::Published) => next == Stage::Idle && command is Done,
        (Stage::Publishing, Event::PublishFailed) => {
            next == Stage::Idle && command matches Command::Fail(RelayError::PublishError)
        },
        _ => next == stage && command is Ignore,
    }
}

/// Advances a relay by one event.
pub fn relay_step(stage: Stage, event: Event) -> (r: (Stage, Command))
    ensures
        relay_next(stage, event, r.0, r.1),
{
    match (stage, event) {
        (Stage::Idle, Event::Record { line }) => (Stage::Writing, Command::Post { line }),
        (Stage::Writing, Event::HttpReply { status, body }) => {
            if 200 <= status && status < 300 {
                (Stage::Querying, Command::Query)
            } else {
                (Stage::Idle, Command::Fail(RelayError::WriteError { status, body }))
            }
        },
        (Stage::Writing, Event::HttpFailed) => (
            Stage::Idle,
            Command::Fail(RelayError::WriteUnsent),
        ),
        (Stage::Querying, Event::HttpReply { status, body }) => {
            if !(200 <= status && status < 300) {
                (Stage::Idle, Command::Fail(RelayError::QueryRejected { status, body }))
            } else {
                match parse_latest(body.as_str()) {
                    Ok(latest) => (
                        Stage::Publishing,
                        Command::Publish { payload: telemetry_payload(&latest) },
                    ),
                    Err(e) => (Stage::Idle, Command::Fail(RelayError::QueryError(e))),
                }
            }
        },
        (Stage::Querying, Event::HttpFailed) => (
            Stage::Idle,
            Command::Fail(RelayError::QueryUnsent),
        ),
        (Stage::Publishing, Event::Published) => (Stage::Idle, Command::Done),
        (Stage::Publishing, Event::PublishFailed) => (
            Stage::Idle,
            Command::Fail(RelayError::PublishError),
        ),
        (stage, _) => (stage, Command::Ignore),
    }
}

/// Nothing is published unless the write succeeded and the query gave a
/// latest point: a publish command comes only out of the querying stage, on a
/// successful answer, and carries that point's payload.
pub proof fn lemma_publish_follows_query(stage: Stage, event: Event, next: Stage, command: Command)
    requires
        relay_next(stage, event, next, command),
        command is Publish,
    ensures
        stage == Stage::Querying,
        next == Stage::Publishing,
        event matches Event::HttpReply { status, body } && is_success(status) && latest_of(
            csv_records(body@),
        ) is Ok,
{
}

/// A failure always ends the relay: the stage falls back to idle.
pub proof fn lemma_failure_returns_to_idle(
    stage: Stage,
    event: Event,
    next: Stage,
    command: Command,
)
    requires
        relay_next(stage, event, next, command),
        command is Fail,
    ensures
        next == Stage::Idle,
{
}

} // verus!
