//! Ingestion of sensor lines: the pending humidity/temperature pair, and the
//! record that a line or a completed pair is written as.

use vstd::prelude::*;
use crate::fields::{line_fields, parse_fields, FieldSpec};
use crate::lineproto::{encode, field_views, line_spec, now_nanos, quote_spec, quote_string_field};
use crate::text::{to_chars, to_string, trim, trim_spec};

verus! {

/// The half-received pair: the number text last seen for humidity and for
/// temperature.
#[derive(Clone, Debug)]
pub struct Pending {
    pub rh: Option<String>,
    pub t: Option<String>,
}

/// An optional string as the contracts see it.
pub open spec fn text_view(s: Option<String>) -> Option<Seq<char>> {
    match s {
        Some(t) => Some(t@),
        None => None,
    }
}

/// An optional pair of strings as the contracts see it.
pub open spec fn pair_view(p: Option<(String, String)>) -> Option<(Seq<char>, Seq<char>)> {
    match p {
        Some(pair) => Some((pair.0@, pair.1@)),
        None => None,
    }
}

/// A half after a line: what the line matched, else what was held before.
pub open spec fn merged(held: Option<Seq<char>>, hit: Option<Seq<char>>) -> Option<Seq<char>> {
    if hit is Some {
        hit
    } else {
        held
    }
}

impl Pending {
    /// Humidity and temperature halves as character sequences.
    pub open spec fn view(&self) -> (Option<Seq<char>>, Option<Seq<char>>) {
        (text_view(self.rh), text_view(self.t))
    }

    /// Both halves are present.
    pub open spec fn complete(&self) -> bool {
        self.rh is Some && self.t is Some
    }

    /// An empty pair.
    pub fn new() -> (p: Pending)
        ensures
            p@ == (None::<Seq<char>>, None::<Seq<char>>),
    {
        Pending { rh: None, t: None }
    }

    /// Takes in what one line matched. Each match overwrites its half; when
    /// both halves are then present the pair `(humidity, temperature)` is
    /// handed out and the pending pair is emptied.
    pub fn absorb(&mut self, rh_hit: Option<String>, t_hit: Option<String>) -> (r: Option<
        (String, String),
    >)
        ensures
            pair_view(r) == emitted(old(self)@, text_view(rh_hit), text_view(t_hit)),
            final(self)@ == remaining(old(self)@, text_view(rh_hit), text_view(t_hit)),
            !final(self).complete(),
    {
        if let Some(v) = rh_hit {
            self.rh = Some(v);
        }
        if let Some(v) = t_hit {
            self.t = Some(v);
        }
        if self.rh.is_some() && self.t.is_some() {
            let rh = self.rh.take().unwrap();
            let t = self.t.take().unwrap();
            Some((rh, t))
        } else {
            None
        }
    }
}

/// The pair that a line completes, if it completes one.
pub open spec fn emitted(
    held: (Option<Seq<char>>, Option<Seq<char>>),
    rh_hit: Option<Seq<char>>,
    t_hit: Option<Seq<char>>,
) -> Option<(Seq<char>, Seq<char>)> {
    let rh = merged(held.0, rh_hit);
    let t = merged(held.1, t_hit);
    if rh is Some && t is Some {
        Some((rh->0, t->0))
    } else {
        None
    }
}

/// What stays pending after a line: nothing once a pair went out.
pub open spec fn remaining(
    held: (Option<Seq<char>>, Option<Seq<char>>),
    rh_hit: Option<Seq<char>>,
    t_hit: Option<Seq<char>>,
) -> (Option<Seq<char>>, Option<Seq<char>>) {
    let rh = merged(held.0, rh_hit);
    let t = merged(held.1, t_hit);
    if rh is Some && t is Some {
        (None, None)
    } else {
        (rh, t)
    }
}

/// The humidity pattern: `RH = <number> %`, in any case.
pub open spec fn rh_pattern() -> Seq<char> {
    "(?i)\\bRH\\b\\s*=\\s*([0-9]+(?:\\.[0-9]+)?)\\s*%"@
}

/// The temperature pattern: `T = <number> C`, in any case, with an optional
/// degree sign.
pub open spec fn t_pattern() -> Seq<char> {
    "(?i)\\bT\\b\\s*=\\s*([0-9]+(?:\\.[0-9]+)?)\\s*\u{00B0}?\\s*C"@
}

/// The text of the first capture group of the leftmost match of a pattern in
/// a line; nothing where the pattern does not match, the group took no part,
/// or the pattern is not a regular expression.
pub uninterp spec fn regex_first_group(pattern: Seq<char>, line: Seq<char>) -> Option<Seq<char>>;

/// `regex::Regex::new`, then `Regex::captures` and `Captures::get(1)`: the
/// text that group 1 matched in the leftmost match of `pattern` in `line`.
/// The result depends on the two texts alone.
#[verifier::external_body]
fn first_group(pattern: &str, line: &str) -> (r: Option<String>)
    ensures
        text_view(r) == regex_first_group(pattern@, line@),
{
    let re = regex::Regex::new(pattern).ok()?;
    let caps = re.captures(line)?;
    caps.get(1).map(|m| m.as_str().to_string())
}

/// Feeds one line to the pending pair: the humidity and the temperature
/// pattern are each tried on the line, and what they capture is absorbed.
pub fn update_pending_from_line(p: &mut Pending, line: &str) -> (r: Option<(String, String)>)
    ensures
        pair_view(r) == emitted(
            old(p)@,
            regex_first_group(rh_pattern(), line@),
            regex_first_group(t_pattern(), line@),
        ),
        final(p)@ == remaining(
            old(p)@,
            regex_first_group(rh_pattern(), line@),
            regex_first_group(t_pattern(), line@),
        ),
        !final(p).complete(),
{
    let rh_hit = first_group("(?i)\\bRH\\b\\s*=\\s*([0-9]+(?:\\.[0-9]+)?)\\s*%", line);
    let t_hit = first_group("(?i)\\bT\\b\\s*=\\s*([0-9]+(?:\\.[0-9]+)?)\\s*\u{00B0}?\\s*C", line);
    p.absorb(rh_hit, t_hit)
}

/// The fields of a completed pair: temperature first, then humidity.
pub open spec fn reading_fields(rh: Seq<char>, t: Seq<char>) -> Seq<FieldSpec> {
    seq![("temperature"@, t), ("humidity"@, rh)]
}

/// The record of a completed pair at a given time.
pub fn reading_line(measurement: &str, tag_source: &str, rh: &str, t: &str, timestamp_ns: i128) -> (line:
    String)
    ensures
        line@ == line_spec(measurement@, tag_source@, reading_fields(rh@, t@), timestamp_ns as int),
{
    let mut fields: Vec<(String, String)> = Vec::new();
    fields.push(("temperature".to_owned(), t.to_owned()));
    fields.push(("humidity".to_owned(), rh.to_owned()));
    proof {
        assert(field_views(fields@) =~= reading_fields(rh@, t@));
    }
    encode(measurement, tag_source, &fields, timestamp_ns)
}

/// The record of a completed pair, stamped with the wall clock's time: the
/// record that `reading_line` gives for some time that is not negative.
pub fn reading_to_influx(measurement: &str, tag_source: &str, rh: &str, t: &str) -> (line: String)
    ensures
        exists|ts: int|
            0 <= ts && line@ == #[trigger] line_spec(
                measurement@,
                tag_source@,
                reading_fields(rh@, t@),
                ts,
            ),
{
    let ts = now_nanos();
    reading_line(measurement, tag_source, rh, t, ts)
}

/// Two halves on two lines make one pair: from an empty pending pair, a
/// humidity line emits nothing, the temperature line after it emits the pair
/// and empties the pending pair, and a line that matches neither pattern then
/// emits nothing and leaves it empty.
pub proof fn lemma_pair_emitted_once(rh: Seq<char>, t: Seq<char>)
    ensures
        emitted((None, None), Some(rh), None) is None,
        remaining((None, None), Some(rh), None) == (Some(rh), None::<Seq<char>>),
        emitted((Some(rh), None), None, Some(t)) == Some((rh, t)),
        remaining((Some(rh), None), None, Some(t)) == (None::<Seq<char>>, None::<Seq<char>>),
        emitted((None, None), None, None) is None,
        remaining((None, None), None, None) == (None::<Seq<char>>, None::<Seq<char>>),
{
}

/// A pending pair that is not complete never becomes complete: whatever a
/// line matches, what stays pending lacks a half.
pub proof fn lemma_never_two_pairs(
    held: (Option<Seq<char>>, Option<Seq<char>>),
    rh_hit: Option<Seq<char>>,
    t_hit: Option<Seq<char>>,
)
    ensures
        remaining(held, rh_hit, t_hit).0 is None || remaining(held, rh_hit, t_hit).1 is None,
        emitted(held, rh_hit, t_hit) is Some ==> remaining(held, rh_hit, t_hit) == (
            None::<Seq<char>>,
            None::<Seq<char>>,
        ),
{
}

/// The fields that a line is recorded with: its parsed fields, or, when it
/// has none and raw lines are kept, the single string field `raw` holding the
/// trimmed line.
pub open spec fn record_fields(raw: Seq<char>, include_raw_on_fail: bool) -> Option<Seq<FieldSpec>> {
    if line_fields(raw) is Some {
        line_fields(raw)
    } else if include_raw_on_fail {
        Some(seq![("raw"@, quote_spec(trim_spec(raw)))])
    } else {
        None
    }
}

/// The record of a line at a given time, if it gets one.
pub open spec fn record_line(
    measurement: Seq<char>,
    tag_source: Seq<char>,
    raw: Seq<char>,
    include_raw_on_fail: bool,
    timestamp_ns: int,
) -> Option<Seq<char>> {
    match record_fields(raw, include_raw_on_fail) {
        Some(fields) => Some(line_spec(measurement, tag_source, fields, timestamp_ns)),
        None => None,
    }
}

/// Turns one line of sensor text into a record stamped `timestamp_ns`.
pub fn line_at(
    measurement: &str,
    default_tag_source: &str,
    raw: &str,
    include_raw_on_fail: bool,
    timestamp_ns: i128,
) -> (r: Option<String>)
    ensures
        text_view(r) == record_line(
            measurement@,
            default_tag_source@,
            raw@,
            include_raw_on_fail,
            timestamp_ns as int,
        ),
{
    match parse_fields(raw) {
        Some(fields) => Some(encode(measurement, default_tag_source, &fields, timestamp_ns)),
        None => {
            if include_raw_on_fail {
                let trimmed = to_string(&trim(&to_chars(raw)));
                let mut fields: Vec<(String, String)> = Vec::new();
                fields.push(("raw".to_owned(), quote_string_field(trimmed.as_str())));
                proof {
                    assert(field_views(fields@) =~= seq![("raw"@, quote_spec(trim_spec(raw@)))]);
                }
                Some(encode(measurement, default_tag_source, &fields, timestamp_ns))
            } else {
                None
            }
        },
    }
}

/// Turns one line of sensor text into a record stamped with the wall clock's
/// time: the record is the one that `line_at` gives for some time that is not
/// negative, and there is none exactly when the line has no fields and raw
/// lines are not kept.
pub fn line_to_influx(
    measurement: &str,
    default_tag_source: &str,
    raw: &str,
    include_raw_on_fail: bool,
) -> (r: Option<String>)
    ensures
        exists|ts: int|
            0 <= ts && text_view(r) == #[trigger] record_line(
                measurement@,
                default_tag_source@,
                raw@,
                include_raw_on_fail,
                ts,
            ),
        r is None <==> record_fields(raw@, include_raw_on_fail) is None,
{
    let ts = now_nanos();
    line_at(measurement, default_tag_source, raw, include_raw_on_fail, ts)
}

} // verus!
