//! The time-series store's side of the pipeline: endpoint addresses, the
//! query script, and the choice of the latest point from a query's answer.

use vstd::prelude::*;
use crate::fields::{is_number, is_number_text};
use crate::text::{append_str, slice_chars, to_chars, to_string};

verus! {

/// Settings of the pipeline.
#[derive(Clone, Debug)]
pub struct Config {
    pub influx_url: String,
    pub influx_token: String,
    pub influx_org: String,
    pub influx_bucket: String,
    pub measurement: String,
    pub tag_source: String,
    pub serial_port: String,
    pub baudrate: u32,
    pub include_raw_on_fail: bool,
    pub tb_host: String,
    pub tb_port: u16,
    pub tb_token: String,
    pub tb_client_id: String,
    pub tb_use_tls: bool,
}

/// Bytes that stay as they are in a query parameter: ASCII letters, digits,
/// and `-`, `.`, `_`, `~`.
pub open spec fn is_unreserved(b: u8) -> bool {
    ||| 0x30 <= b <= 0x39
    ||| 0x41 <= b <= 0x5A
    ||| 0x61 <= b <= 0x7A
    ||| b == 0x2D
    ||| b == 0x2E
    ||| b == 0x5F
    ||| b == 0x7E
}

/// Upper-case hexadecimal digit of a value below sixteen.
pub open spec fn hex_digit(n: u8) -> char {
    if n < 10 {
        (0x30 + n) as char
    } else {
        (0x41 + n - 10) as char
    }
}

/// One byte, percent-encoded unless unreserved.
pub open spec fn percent_byte(b: u8) -> Seq<char> {
    if is_unreserved(b) {
        seq![b as char]
    } else {
        seq!['%', hex_digit(b >> 4), hex_digit(b & 15)]
    }
}

/// A byte string, percent-encoded byte by byte.
pub open spec fn percent_encode(bytes: Seq<u8>) -> Seq<char>
    decreases bytes.len(),
{
    if bytes.len() == 0 {
        Seq::<char>::empty()
    } else {
        percent_encode(bytes.drop_last()) + percent_byte(bytes.last())
    }
}

/// A text, percent-encoded over its UTF-8 bytes.
pub open spec fn url_encoded(text: Seq<char>) -> Seq<char> {
    percent_encode(vstd::utf8::encode_utf8(text))
}

/// `urlencoding::encode`: every byte of the UTF-8 text is percent-encoded
/// with upper-case hexadecimal digits, except ASCII letters, digits and
/// `-`, `.`, `_`, `~`, which stay.
#[verifier::external_body]
fn url_encode(s: &str) -> (r: String)
    ensures
        r@ == url_encoded(s@),
{
    urlencoding::encode(s).into_owned()
}

/// Length of `s` without the slashes at its end.
pub open spec fn slash_end(s: Seq<char>, hi: int) -> int
    decreases hi,
{
    if 0 < hi <= s.len() && s[hi - 1] == '/' {
        slash_end(s, hi - 1)
    } else {
        hi
    }
}

/// `s` without the slashes at its end.
pub open spec fn without_trailing_slashes(s: Seq<char>) -> Seq<char> {
    s.subrange(0, slash_end(s, s.len() as int))
}

fn strip_trailing_slashes(s: &str) -> (r: Vec<char>)
    ensures
        r@ == without_trailing_slashes(s@),
{
    let v = to_chars(s);
    let mut hi: usize = v.len();
    while hi > 0 && v[hi - 1] == '/'
        invariant
            hi <= v@.len(),
            slash_end(v@, v@.len() as int) == slash_end(v@, hi as int),
        decreases hi,
    {
        hi = hi - 1;
    }
    slice_chars(&v, 0, hi)
}

/// Address of the write endpoint.
pub open spec fn write_url(base: Seq<char>, org: Seq<char>, bucket: Seq<char>) -> Seq<char> {
    without_trailing_slashes(base) + "/api/v2/write?org="@ + url_encoded(org) + "&bucket="@
        + url_encoded(bucket) + "&precision=ns"@
}

/// Address of the query endpoint.
pub open spec fn query_url(base: Seq<char>, org: Seq<char>) -> Seq<char> {
    without_trailing_slashes(base) + "/api/v2/query?org="@ + url_encoded(org)
}

/// Builds the address that records are posted to, with nanosecond precision.
pub fn build_write_url(cfg: &Config) -> (url: String)
    ensures
        url@ == write_url(cfg.influx_url@, cfg.influx_org@, cfg.influx_bucket@),
{
    let mut out = strip_trailing_slashes(cfg.influx_url.as_str());
    append_str(&mut out, "/api/v2/write?org=");
    append_str(&mut out, url_encode(cfg.influx_org.as_str()).as_str());
    append_str(&mut out, "&bucket=");
    append_str(&mut out, url_encode(cfg.influx_bucket.as_str()).as_str());
    append_str(&mut out, "&precision=ns");
    to_string(&out)
}

/// Builds the address that queries are posted to.
pub fn build_query_url(cfg: &Config) -> (url: String)
    ensures
        url@ == query_url(cfg.influx_url@, cfg.influx_org@),
{
    let mut out = strip_trailing_slashes(cfg.influx_url.as_str());
    append_str(&mut out, "/api/v2/query?org=");
    append_str(&mut out, url_encode(cfg.influx_org.as_str()).as_str());
    to_string(&out)
}

/// The query script for the latest point of a measurement: seven days back,
/// the fields pivoted onto their time, newest first, one row.
pub open spec fn latest_query(bucket: Seq<char>, measurement: Seq<char>) -> Seq<char> {
    "\nfrom(bucket: \""@ + bucket
        + "\")\n  |> range(start: -7d)\n  |> filter(fn: (r) => r[\"_measurement\"] == \""@
        + measurement
        + "\")\n  |> pivot(rowKey: [\"_time\"], columnKey: [\"_field\"], valueColumn: \"_value\")\n  |> keep(columns: [\"_time\",\"temperature\",\"humidity\"])\n  |> sort(columns: [\"_time\"], desc: true)\n  |> limit(n: 1)\n"@
}

/// Builds the query script for the configured bucket and measurement.
pub fn build_latest_query(cfg: &Config) -> (script: String)
    ensures
        script@ == latest_query(cfg.influx_bucket@, cfg.measurement@),
{
    let mut out: Vec<char> = Vec::new();
    append_str(&mut out, "\nfrom(bucket: \"");
    append_str(&mut out, cfg.influx_bucket.as_str());
    append_str(
        &mut out,
        "\")\n  |> range(start: -7d)\n  |> filter(fn: (r) => r[\"_measurement\"] == \"",
    );
    append_str(&mut out, cfg.measurement.as_str());
    append_str(
        &mut out,
        "\")\n  |> pivot(rowKey: [\"_time\"], columnKey: [\"_field\"], valueColumn: \"_value\")\n  |> keep(columns: [\"_time\",\"temperature\",\"humidity\"])\n  |> sort(columns: [\"_time\"], desc: true)\n  |> limit(n: 1)\n",
    );
    proof {
        assert(out@ =~= latest_query(cfg.influx_bucket@, cfg.measurement@));
    }
    to_string(&out)
}

/// The most recent point of the measurement. Temperature and humidity are
/// held as the number text that the store gave.
#[derive(Clone, Debug)]
pub struct Latest {
    pub temperature: String,
    pub humidity: String,
    pub ts_ms: i64,
}

/// A latest point as the contracts see it.
pub struct LatestSpec {
    pub temperature: Seq<char>,
    pub humidity: Seq<char>,
    pub ts_ms: i64,
}

impl Latest {
    pub open spec fn view(&self) -> LatestSpec {
        LatestSpec { temperature: self.temperature@, humidity: self.humidity@, ts_ms: self.ts_ms }
    }
}

/// Why a query's answer gave no latest point.
#[derive(Clone, Copy, Debug, PartialEq, Eq, Structural)]
pub enum QueryError {
    /// The answer has no `_time` column.
    MissingTime,
    /// The answer has no `temperature` column.
    MissingTemperature,
    /// The answer has no `humidity` column.
    MissingHumidity,
    /// A row could not be read.
    BadRecord,
    /// The time of the first full row is not RFC 3339.
    BadTime,
    /// The temperature of the first full row is no number.
    BadTemperature,
    /// The humidity of the first full row is no number.
    BadHumidity,
    /// No row holds all three cells.
    NoRows,
}

/// The cells of one row.
pub open spec fn row_view(row: Vec<String>) -> Seq<Seq<char>> {
    Seq::new(row@.len(), |i: int| row@[i]@)
}

/// The rows of an answer; a row that could not be read is `None`.
pub open spec fn rows_view(rows: Seq<Option<Vec<String>>>) -> Seq<Option<Seq<Seq<char>>>> {
    Seq::new(
        rows.len(),
        |i: int|
            match rows[i] {
                Some(row) => Some(row_view(row)),
                None => None,
            },
    )
}

/// The records of a CSV text read without a header row and with `#` lines as
/// comments, each as its cells; `None` stands for a record that the reader
/// refused.
pub uninterp spec fn csv_records(text: Seq<char>) -> Seq<Option<Seq<Seq<char>>>>;

/// `csv::ReaderBuilder` with `has_headers(false)` and `comment(Some(b'#'))`,
/// then `Reader::records`: every record of `text` in order, each cell as a
/// string. The result depends on `text` alone.
#[verifier::external_body]
fn csv_rows(text: &str) -> (rows: Vec<Option<Vec<String>>>)
    ensures
        rows_view(rows@) == csv_records(text@),
{
    let mut reader = csv::ReaderBuilder::new().has_headers(false).comment(Some(b'#')).from_reader(
        text.as_bytes(),
    );
    reader.records().map(|rec| rec.ok().map(|r| r.iter().map(|c| c.to_string()).collect())).collect()
}

/// Milliseconds since the Unix epoch of an RFC 3339 time; nothing where the
/// text is no such time.
pub uninterp spec fn rfc3339_millis(text: Seq<char>) -> Option<i64>;

/// `str::parse` to `chrono::DateTime<Utc>`, then `DateTime::timestamp_millis`.
/// The result depends on `s` alone.
#[verifier::external_body]
fn parse_rfc3339_millis(s: &str) -> (r: Option<i64>)
    ensures
        r == rfc3339_millis(s@),
{
    s.parse::<chrono::DateTime<chrono::Utc>>().ok().map(|t| t.timestamp_millis())
}

/// Index of the first cell of `header` at or after `i` that equals `name`,
/// or the header's length.
pub open spec fn column_from(header: Seq<Seq<char>>, name: Seq<char>, i: int) -> int
    decreases header.len() - i,
{
    if 0 <= i < header.len() && header[i] != name {
        column_from(header, name, i + 1)
    } else {
        i
    }
}

/// The cell at a column, or the empty text where the row is shorter.
pub open spec fn cell(row: Seq<Seq<char>>, i: int) -> Seq<char> {
    if 0 <= i < row.len() {
        row[i]
    } else {
        Seq::<char>::empty()
    }
}

/// The first row from `k` on that holds all three cells decides: it is the
/// latest point, or the reason why it is not. A row that could not be read
/// before that is an error; no such row at all is an error too.
pub open spec fn scan_rows(
    rows: Seq<Option<Seq<Seq<char>>>>,
    k: int,
    i_time: int,
    i_temp: int,
    i_hum: int,
) -> Result<LatestSpec, QueryError>
    decreases rows.len() - k,
{
    if k < 0 || k >= rows.len() {
        Err(QueryError::NoRows)
    } else {
        match rows[k] {
            None => Err(QueryError::BadRecord),
            Some(row) => {
                let time = cell(row, i_time);
                let temp = cell(row, i_temp);
                let hum = cell(row, i_hum);
                if time.len() == 0 || temp.len() == 0 || hum.len() == 0 {
                    scan_rows(rows, k + 1, i_time, i_temp, i_hum)
                } else if rfc3339_millis(time) is None {
                    Err(QueryError::BadTime)
                } else if !is_number(temp) {
                    Err(QueryError::BadTemperature)
                } else if !is_number(hum) {
                    Err(QueryError::BadHumidity)
                } else {
                    Ok(LatestSpec { temperature: temp, humidity: hum, ts_ms: rfc3339_millis(time)->0 })
                }
            },
        }
    }
}

/// The latest point of an answer whose first row names the columns.
pub open spec fn latest_of(rows: Seq<Option<Seq<Seq<char>>>>) -> Result<LatestSpec, QueryError> {
    if rows.len() > 0 && rows[0] is None {
        Err(QueryError::BadRecord)
    } else {
        let header = if rows.len() > 0 { rows[0]->0 } else { Seq::<Seq<char>>::empty() };
        let i_time = column_from(header, "_time"@, 0);
        let i_temp = column_from(header, "temperature"@, 0);
        let i_hum = column_from(header, "humidity"@, 0);
        if i_time >= header.len() {
            Err(QueryError::MissingTime)
        } else if i_temp >= header.len() {
            Err(QueryError::MissingTemperature)
        } else if i_hum >= header.len() {
            Err(QueryError::MissingHumidity)
        } else {
            scan_rows(rows, 1, i_time, i_temp, i_hum)
        }
    }
}

/// The view of a result that holds a latest point.
pub open spec fn latest_view(r: Result<Latest, QueryError>) -> Result<LatestSpec, QueryError> {
    match r {
        Ok(latest) => Ok(latest@),
        Err(e) => Err(e),
    }
}

fn same_text(a: &str, b: &str) -> (same: bool)
    ensures
        same == (a@ == b@),
{
    let x = to_chars(a);
    let y = to_chars(b);
    if x.len() != y.len() {
        return false;
    }
    let mut i: usize = 0;
    while i < x.len()
        invariant
            i <= x@.len() == y@.len(),
            x@ == a@,
            y@ == b@,
            x@.take(i as int) == y@.take(i as int),
        decreases x@.len() - i,
    {
        if x[i] != y[i] {
            return false;
        }
        proof {
            assert(x@.take(i + 1) =~= x@.take(i as int).push(x@[i as int]));
            assert(y@.take(i + 1) =~= y@.take(i as int).push(y@[i as int]));
        }
        i = i + 1;
    }
    proof {
        assert(x@.take(x@.len() as int) =~= x@);
        assert(y@.take(y@.len() as int) =~= y@);
    }
    true
}

fn find_column(header: &Vec<String>, name: &str) -> (i: usize)
    ensures
        i == column_from(row_view(*header), name@, 0),
        i <= header@.len(),
{
    let mut i: usize = 0;
    while i < header.len() && !same_text(header[i].as_str(), name)
        invariant
            i <= header@.len(),
            column_from(row_view(*header), name@, 0) == column_from(
                row_view(*header),
                name@,
                i as int,
            ),
        decreases header@.len() - i,
    {
        i = i + 1;
    }
    i
}

fn cell_at(row: &Vec<String>, i: usize) -> (r: Vec<char>)
    ensures
        r@ == cell(row_view(*row), i as int),
{
    if i < row.len() {
        to_chars(row[i].as_str())
    } else {
        Vec::new()
    }
}

/// Picks the latest point out of the rows of a query's answer. The first row
/// names the columns; the first later row with a time, a temperature and a
/// humidity is the point.
pub fn latest_from_rows(rows: &Vec<Option<Vec<String>>>) -> (r: Result<Latest, QueryError>)
    ensures
        latest_view(r) == latest_of(rows_view(rows@)),
{
    let ghost views = rows_view(rows@);
    let empty: Vec<String> = Vec::new();
    if rows.len() > 0 && rows[0].is_none() {
        return Err(QueryError::BadRecord);
    }
    let header: &Vec<String> = if rows.len() > 0 {
        rows[0].as_ref().unwrap()
    } else {
        &empty
    };
    proof {
        let h = if views.len() > 0 { views[0]->0 } else { Seq::<Seq<char>>::empty() };
        assert(row_view(*header) =~= h);
    }
    let i_time = find_column(header, "_time");
    if i_time >= header.len() {
        return Err(QueryError::MissingTime);
    }
    let i_temp = find_column(header, "temperature");
    if i_temp >= header.len() {
        return Err(QueryError::MissingTemperature);
    }
    let i_hum = find_column(header, "humidity");
    if i_hum >= header.len() {
        return Err(QueryError::MissingHumidity);
    }
    let mut k: usize = 1;
    while k < rows.len()
        invariant
            1 <= k <= rows@.len(),
            views == rows_view(rows@),
            latest_of(views) == scan_rows(views, k as int, i_time as int, i_temp as int, i_hum as int),
        decreases rows@.len() - k,
    {
        match &rows[k] {
            None => {
                return Err(QueryError::BadRecord);
            },
            Some(row) => {
                let time = cell_at(row, i_time);
                let temp = cell_at(row, i_temp);
                let hum = cell_at(row, i_hum);
                if !(time.len() == 0 || temp.len() == 0 || hum.len() == 0) {
                    let time_text = to_string(&time);
                    match parse_rfc3339_millis(time_text.as_str()) {
                        None => {
                            return Err(QueryError::BadTime);
                        },
                        Some(ts_ms) => {
                            if !is_number_text(&temp) {
                                return Err(QueryError::BadTemperature);
                            }
                            if !is_number_text(&hum) {
                                return Err(QueryError::BadHumidity);
                            }
                            return Ok(
                                Latest {
                                    temperature: to_string(&temp),
                                    humidity: to_string(&hum),
                                    ts_ms,
                                },
                            );
                        },
                    }
                }
            },
        }
        k = k + 1;
    }
    Err(QueryError::NoRows)
}

/// Reads the CSV answer of a query and picks the latest point out of it.
pub fn parse_latest(text: &str) -> (r: Result<Latest, QueryError>)
    ensures
        latest_view(r) == latest_of(csv_records(text@)),
{
    let rows = csv_rows(text);
    latest_from_rows(&rows)
}

/// The telemetry payload: a JSON object with the temperature, then the
/// humidity.
pub open spec fn payload_spec(latest: LatestSpec) -> Seq<char> {
    "{\"temperature\":"@ + latest.temperature + ",\"humidity\":"@ + latest.humidity + "}"@
}

/// Serializes a latest point as the telemetry payload.
pub fn telemetry_payload(latest: &Latest) -> (payload: String)
    ensures
        payload@ == payload_spec(latest@),
{
    let mut out: Vec<char> = Vec::new();
    append_str(&mut out, "{\"temperature\":");
    append_str(&mut out, latest.temperature.as_str());
    append_str(&mut out, ",\"humidity\":");
    append_str(&mut out, latest.humidity.as_str());
    append_str(&mut out, "}");
    proof {
        assert(out@ =~= payload_spec(latest@));
    }
    to_string(&out)
}

} // verus!
