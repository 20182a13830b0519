//! The line-protocol encoder: escaping rules and the record layout
//! `measurement,source=<tag> <key>=<value>,... <timestamp>`.

use vstd::prelude::*;
use crate::text::{append_chars, append_decimal_int, append_str, decimal_int, to_chars, to_string};

verus! {

/// Characters that are backslash-escaped in measurement names, tag values and
/// field keys.
pub open spec fn is_reserved(c: char) -> bool {
    c == ',' || c == ' ' || c == '='
}

/// One character of a name, escaped.
pub open spec fn escape_char(c: char) -> Seq<char> {
    if is_reserved(c) {
        seq!['\\', c]
    } else {
        seq![c]
    }
}

/// A name with every comma, space and equals sign preceded by a backslash.
pub open spec fn escape_spec(s: Seq<char>) -> Seq<char>
    decreases s.len(),
{
    if s.len() == 0 {
        Seq::<char>::empty()
    } else {
        escape_spec(s.drop_last()) + escape_char(s.last())
    }
}

/// One character of a string field's value, escaped.
pub open spec fn quote_char(c: char) -> Seq<char> {
    if c == '\\' || c == '"' {
        seq!['\\', c]
    } else {
        seq![c]
    }
}

/// The inside of a quoted string field: backslashes and double quotes
/// preceded by a backslash.
pub open spec fn quote_body(s: Seq<char>) -> Seq<char>
    decreases s.len(),
{
    if s.len() == 0 {
        Seq::<char>::empty()
    } else {
        quote_body(s.drop_last()) + quote_char(s.last())
    }
}

/// A string field's value: the escaped text between double quotes.
pub open spec fn quote_spec(s: Seq<char>) -> Seq<char> {
    seq!['"'] + quote_body(s) + seq!['"']
}

/// The field set as pairs of character sequences.
pub open spec fn field_views(fields: Seq<(String, String)>) -> Seq<(Seq<char>, Seq<char>)> {
    Seq::new(fields.len(), |i: int| (fields[i].0@, fields[i].1@))
}

/// One field: escaped key, equals sign, value as it stands.
pub open spec fn field_text(field: (Seq<char>, Seq<char>)) -> Seq<char> {
    escape_spec(field.0) + seq!['='] + field.1
}

/// The fields joined by commas.
pub open spec fn join_fields(fields: Seq<(Seq<char>, Seq<char>)>) -> Seq<char>
    decreases fields.len(),
{
    if fields.len() == 0 {
        Seq::<char>::empty()
    } else if fields.len() == 1 {
        field_text(fields[0])
    } else {
        join_fields(fields.drop_last()) + seq![','] + field_text(fields.last())
    }
}

/// A whole record.
pub open spec fn line_spec(
    measurement: Seq<char>,
    tag_value: Seq<char>,
    fields: Seq<(Seq<char>, Seq<char>)>,
    timestamp_ns: int,
) -> Seq<char> {
    escape_spec(measurement) + ",source="@ + escape_spec(tag_value) + seq![' '] + join_fields(
        fields,
    ) + seq![' '] + decimal_int(timestamp_ns)
}

/// Appends the escaped form of `s` to `out`.
pub fn append_escaped(out: &mut Vec<char>, s: &Vec<char>)
    ensures
        final(out)@ == old(out)@ + escape_spec(s@),
{
    let mut i: usize = 0;
    while i < s.len()
        invariant
            i <= s@.len(),
            out@ == old(out)@ + escape_spec(s@.take(i as int)),
        decreases s@.len() - i,
    {
        let c: char = s[i];
        proof {
            assert(s@.take(i + 1).drop_last() =~= s@.take(i as int));
        }
        if c == ',' || c == ' ' || c == '=' {
            out.push('\\');
        }
        out.push(c);
        proof {
            assert(out@ =~= old(out)@ + escape_spec(s@.take(i + 1)));
        }
        i = i + 1;
    }
    proof {
        assert(s@.take(s@.len() as int) =~= s@);
    }
}

/// Appends the quoted form of `s` to `out`.
pub fn append_quoted(out: &mut Vec<char>, s: &Vec<char>)
    ensures
        final(out)@ == old(out)@ + quote_spec(s@),
{
    out.push('"');
    let mut i: usize = 0;
    while i < s.len()
        invariant
            i <= s@.len(),
            out@ == old(out)@ + seq!['"'] + quote_body(s@.take(i as int)),
        decreases s@.len() - i,
    {
        let c: char = s[i];
        proof {
            assert(s@.take(i + 1).drop_last() =~= s@.take(i as int));
        }
        if c == '\\' || c == '"' {
            out.push('\\');
        }
        out.push(c);
        proof {
            assert(out@ =~= old(out)@ + seq!['"'] + quote_body(s@.take(i + 1)));
        }
        i = i + 1;
    }
    out.push('"');
    proof {
        assert(s@.take(s@.len() as int) =~= s@);
        assert(final(out)@ =~= old(out)@ + quote_spec(s@));
    }
}

/// Escapes a measurement name.
pub fn escape_measurement(s: &str) -> (r: String)
    ensures
        r@ == escape_spec(s@),
{
    let chars = to_chars(s);
    let mut out: Vec<char> = Vec::new();
    append_escaped(&mut out, &chars);
    proof {
        assert(out@ =~= escape_spec(s@));
    }
    to_string(&out)
}

/// Escapes a tag key or a tag value.
pub fn escape_tag_key_or_value(s: &str) -> (r: String)
    ensures
        r@ == escape_spec(s@),
{
    escape_measurement(s)
}

/// Escapes a field key.
pub fn escape_field_key(s: &str) -> (r: String)
    ensures
        r@ == escape_spec(s@),
{
    escape_measurement(s)
}

/// Wraps a string field's value in double quotes, escaping backslashes and
/// double quotes inside it.
pub fn quote_string_field(s: &str) -> (r: String)
    ensures
        r@ == quote_spec(s@),
{
    let chars = to_chars(s);
    let mut out: Vec<char> = Vec::new();
    append_quoted(&mut out, &chars);
    proof {
        assert(out@ =~= quote_spec(s@));
    }
    to_string(&out)
}

/// Appends the comma-joined fields to `out`.
pub fn append_fields(out: &mut Vec<char>, fields: &Vec<(String, String)>)
    ensures
        final(out)@ == old(out)@ + join_fields(field_views(fields@)),
{
    let ghost views = field_views(fields@);
    let mut i: usize = 0;
    while i < fields.len()
        invariant
            i <= fields@.len(),
            views == field_views(fields@),
            out@ == old(out)@ + join_fields(views.take(i as int)),
        decreases fields@.len() - i,
    {
        if i > 0 {
            out.push(',');
        }
        let key = to_chars(fields[i].0.as_str());
        let value = to_chars(fields[i].1.as_str());
        append_escaped(out, &key);
        out.push('=');
        append_chars(out, &value);
        proof {
            let next = views.take(i + 1);
            assert(next.drop_last() =~= views.take(i as int));
            assert(next.last() == (fields@[i as int].0@, fields@[i as int].1@));
            assert(out@ =~= old(out)@ + join_fields(next));
        }
        i = i + 1;
    }
    proof {
        assert(views.take(fields@.len() as int) =~= views);
    }
}

/// Serializes one record: escaped measurement, the `source` tag, the fields
/// and the timestamp in nanoseconds.
pub fn encode(
    measurement: &str,
    tag_value: &str,
    fields: &Vec<(String, String)>,
    timestamp_ns: i128,
) -> (line: String)
    ensures
        line@ == line_spec(measurement@, tag_value@, field_views(fields@), timestamp_ns as int),
{
    let m = to_chars(measurement);
    let t = to_chars(tag_value);
    let mut out: Vec<char> = Vec::new();
    append_escaped(&mut out, &m);
    append_str(&mut out, ",source=");
    append_escaped(&mut out, &t);
    out.push(' ');
    append_fields(&mut out, fields);
    out.push(' ');
    append_decimal_int(&mut out, timestamp_ns);
    proof {
        assert(out@ =~= line_spec(
            measurement@,
            tag_value@,
            field_views(fields@),
            timestamp_ns as int,
        ));
    }
    to_string(&out)
}

/// In an escaped name no comma, space or equals sign stands bare: each one
/// follows a backslash.
pub proof fn lemma_escaped_is_guarded(s: Seq<char>, i: int)
    requires
        0 <= i < escape_spec(s).len(),
        is_reserved(escape_spec(s)[i]),
    ensures
        i > 0,
        escape_spec(s)[i - 1] == '\\',
    decreases s.len(),
{
    if s.len() > 0 {
        let head = escape_spec(s.drop_last());
        if i < head.len() {
            lemma_escaped_is_guarded(s.drop_last(), i);
        }
    }
}

/// Inside a quoted string field no double quote stands bare: each one
/// follows a backslash.
pub proof fn lemma_quoted_is_guarded(s: Seq<char>, i: int)
    requires
        0 <= i < quote_body(s).len(),
        quote_body(s)[i] == '"',
    ensures
        i > 0,
        quote_body(s)[i - 1] == '\\',
    decreases s.len(),
{
    if s.len() > 0 {
        let head = quote_body(s.drop_last());
        if i < head.len() {
            lemma_quoted_is_guarded(s.drop_last(), i);
        }
    }
}

/// The wall clock's type; nothing inside it is read here.
#[verifier::external_type_specification]
#[verifier::external_body]
pub struct ExSystemTime(std::time::SystemTime);

/// `SystemTime::now`: the current wall-clock time. Nothing is claimed of it.
#[verifier::external_body]
fn wall_clock() -> (t: std::time::SystemTime) {
    std::time::SystemTime::now()
}

/// `SystemTime::duration_since` against the Unix epoch: the time elapsed
/// since then, or nothing when the clock stands before the epoch.
#[verifier::external_body]
fn since_unix_epoch(t: &std::time::SystemTime) -> (d: Option<std::time::Duration>) {
    t.duration_since(std::time::UNIX_EPOCH).ok()
}

/// `Duration::as_secs`: the whole seconds of a duration.
#[verifier::external_body]
fn whole_seconds(d: &std::time::Duration) -> (secs: u64) {
    d.as_secs()
}

/// `Duration::subsec_nanos`: the fractional part of a duration in
/// nanoseconds, which is always below one second.
#[verifier::external_body]
fn subsecond_nanos(d: &std::time::Duration) -> (nanos: u32)
    ensures
        nanos < 1_000_000_000,
{
    d.subsec_nanos()
}

/// Nanoseconds since the Unix epoch by the wall clock: `epoch_nanos_spec` of
/// the seconds and nanoseconds that it reports, zero before the epoch.
pub fn now_nanos() -> (ns: i128)
    ensures
        0 <= ns <= u64::MAX * 1_000_000_000 + 999_999_999,
        exists|elapsed: Option<(u64, u32)>|
            ns == #[trigger] epoch_nanos_spec(elapsed) && (elapsed matches Some(parts)
                ==> parts.1 < 1_000_000_000),
{
    let now = wall_clock();
    let elapsed: Option<(u64, u32)> = match since_unix_epoch(&now) {
        Some(d) => Some((whole_seconds(&d), subsecond_nanos(&d))),
        None => None,
    };
    epoch_nanos(elapsed)
}

/// The timestamp for a time elapsed since the epoch, given as whole seconds
/// and nanoseconds: the two combined, or zero where no time is given.
pub open spec fn epoch_nanos_spec(elapsed: Option<(u64, u32)>) -> int {
    match elapsed {
        Some(parts) => parts.0 * 1_000_000_000 + parts.1,
        None => 0,
    }
}

/// Combines whole seconds and nanoseconds since the epoch into a timestamp in
/// nanoseconds; no elapsed time gives zero.
pub fn epoch_nanos(elapsed: Option<(u64, u32)>) -> (ns: i128)
    ensures
        ns == epoch_nanos_spec(elapsed),
{
    match elapsed {
        Some(parts) => (parts.0 as i128) * 1_000_000_000i128 + (parts.1 as i128),
        None => 0,
    }
}

} // verus!
