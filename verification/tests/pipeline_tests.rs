use sensor_relay::ingest::{reading_line, update_pending_from_line, Pending};
use sensor_relay::pipeline::{relay_step, topic, Command, Event, RelayError, Stage};
use sensor_relay::store::{
    build_latest_query, build_query_url, build_write_url, latest_from_rows, parse_latest,
    telemetry_payload, Config, Latest, QueryError,
};

fn config() -> Config {
    Config {
        influx_url: "http://localhost:8086//".to_string(),
        influx_token: "token".to_string(),
        influx_org: "my org".to_string(),
        influx_bucket: "b/1~x".to_string(),
        measurement: "sensor".to_string(),
        tag_source: "COM15".to_string(),
        serial_port: "COM15".to_string(),
        baudrate: 115200,
        include_raw_on_fail: true,
        tb_host: "localhost".to_string(),
        tb_port: 1883,
        tb_token: "t".to_string(),
        tb_client_id: "influx-bridge".to_string(),
        tb_use_tls: false,
    }
}

const ANSWER: &str = "#datatype,string,long,dateTime:RFC3339,double,double\n,result,table,_time,humidity,temperature\n,_result,0,2024-01-02T03:04:05.678Z,60,28\n";

#[test]
fn write_url_is_encoded() {
    assert_eq!(
        build_write_url(&config()),
        "http://localhost:8086/api/v2/write?org=my%20org&bucket=b%2F1~x&precision=ns"
    );
}

#[test]
fn query_url_is_encoded() {
    let mut cfg = config();
    cfg.influx_org = "\u{00E9}-_.".to_string();
    cfg.influx_url = "http://h".to_string();
    assert_eq!(build_query_url(&cfg), "http://h/api/v2/query?org=%C3%A9-_.");
}

#[test]
fn query_script_names_bucket_and_measurement() {
    let script = build_latest_query(&config());
    assert_eq!(
        script,
        "\nfrom(bucket: \"b/1~x\")\n  |> range(start: -7d)\n  |> filter(fn: (r) => r[\"_measurement\"] == \"sensor\")\n  |> pivot(rowKey: [\"_time\"], columnKey: [\"_field\"], valueColumn: \"_value\")\n  |> keep(columns: [\"_time\",\"temperature\",\"humidity\"])\n  |> sort(columns: [\"_time\"], desc: true)\n  |> limit(n: 1)\n"
    );
}

#[test]
fn latest_point_is_read_from_answer() {
    let latest = parse_latest(ANSWER).unwrap();
    assert_eq!(latest.temperature, "28");
    assert_eq!(latest.humidity, "60");
    assert_eq!(latest.ts_ms, 1704164645678);
}

#[test]
fn answer_without_rows_is_an_error() {
    let text = ",result,table,_time,humidity,temperature\n";
    assert_eq!(parse_latest(text).unwrap_err(), QueryError::NoRows);
}

#[test]
fn empty_answer_lacks_the_time_column() {
    assert_eq!(parse_latest("").unwrap_err(), QueryError::MissingTime);
}

#[test]
fn answer_without_a_column_is_an_error() {
    assert_eq!(parse_latest("a,temperature,humidity\n1,2,3\n").unwrap_err(), QueryError::MissingTime);
    assert_eq!(parse_latest("_time,humidity\n1,2\n").unwrap_err(), QueryError::MissingTemperature);
    assert_eq!(parse_latest("_time,temperature\n1,2\n").unwrap_err(), QueryError::MissingHumidity);
}

#[test]
fn rows_with_empty_cells_are_skipped() {
    let text = "_time,temperature,humidity\n2024-01-02T03:04:05Z,,60\n2024-01-02T03:04:06Z,21.5,55\n";
    let latest = parse_latest(text).unwrap();
    assert_eq!(latest.temperature, "21.5");
    assert_eq!(latest.humidity, "55");
    assert_eq!(latest.ts_ms, 1704164646000);
}

#[test]
fn bad_cells_are_errors() {
    assert_eq!(
        parse_latest("_time,temperature,humidity\nyesterday,1,2\n").unwrap_err(),
        QueryError::BadTime
    );
    assert_eq!(
        parse_latest("_time,temperature,humidity\n2024-01-02T03:04:05Z,warm,2\n").unwrap_err(),
        QueryError::BadTemperature
    );
    assert_eq!(
        parse_latest("_time,temperature,humidity\n2024-01-02T03:04:05Z,1,wet\n").unwrap_err(),
        QueryError::BadHumidity
    );
}

#[test]
fn ragged_row_is_a_bad_record() {
    assert_eq!(
        parse_latest("_time,temperature,humidity\n2024-01-02T03:04:05Z,1\n").unwrap_err(),
        QueryError::BadRecord
    );
}

#[test]
fn latest_from_rows_directly() {
    let row = |cells: &[&str]| Some(cells.iter().map(|c| c.to_string()).collect::<Vec<String>>());
    let rows = vec![
        row(&["humidity", "_time", "temperature"]),
        row(&["", "", ""]),
        row(&["41", "1970-01-01T00:00:01Z", "20.5"]),
        None,
    ];
    let latest = latest_from_rows(&rows).unwrap();
    assert_eq!(latest.humidity, "41");
    assert_eq!(latest.temperature, "20.5");
    assert_eq!(latest.ts_ms, 1000);
    assert_eq!(latest_from_rows(&vec![None]).unwrap_err(), QueryError::BadRecord);
    assert_eq!(latest_from_rows(&Vec::new()).unwrap_err(), QueryError::MissingTime);
    let rows = vec![row(&["humidity", "_time", "temperature"]), None];
    assert_eq!(latest_from_rows(&rows).unwrap_err(), QueryError::BadRecord);
}

#[test]
fn payload_has_temperature_then_humidity() {
    let latest = Latest { temperature: "26.5".to_string(), humidity: "55".to_string(), ts_ms: 0 };
    let payload = telemetry_payload(&latest);
    assert_eq!(payload, "{\"temperature\":26.5,\"humidity\":55}");
    let value: serde_json::Value = serde_json::from_str(&payload).unwrap();
    assert_eq!(value["temperature"].as_f64(), Some(26.5));
    assert_eq!(value["humidity"].as_f64(), Some(55.0));
}

#[test]
fn topic_is_fixed() {
    assert_eq!(topic(), "v1/devices/me/telemetry");
}

#[test]
fn end_to_end_with_stub_store_and_broker() {
    let cfg = config();
    let mut pending = Pending::new();
    assert_eq!(update_pending_from_line(&mut pending, "RH = 60 %"), None);
    let (rh, t) = update_pending_from_line(&mut pending, "T = 28 C").unwrap();
    let line = reading_line(&cfg.measurement, &cfg.tag_source, &rh, &t, 1234);
    assert!(line.contains("temperature=28,humidity=60"));
    assert!(line.starts_with("sensor,source=COM15 "));

    let mut posts = Vec::new();
    let mut queries = 0;
    let mut published = Vec::new();
    let mut stage = Stage::Idle;
    let mut event = Event::Record { line: line.clone() };
    let mut done = false;
    while !done {
        let (next, command) = relay_step(stage, event);
        stage = next;
        event = match command {
            Command::Post { line } => {
                posts.push(line);
                Event::HttpReply { status: 204, body: String::new() }
            }
            Command::Query => {
                queries += 1;
                Event::HttpReply { status: 200, body: ANSWER.to_string() }
            }
            Command::Publish { payload } => {
                published.push(payload);
                Event::Published
            }
            Command::Done => {
                done = true;
                Event::Published
            }
            other => panic!("unexpected command {:?}", other),
        };
    }
    assert_eq!(stage, Stage::Idle);
    assert_eq!(posts, vec![line]);
    assert_eq!(queries, 1);
    assert_eq!(published, vec!["{\"temperature\":28,\"humidity\":60}".to_string()]);
}

#[test]
fn write_failure_ends_the_relay() {
    let (stage, command) = relay_step(
        Stage::Writing,
        Event::HttpReply { status: 401, body: "unauthorized".to_string() },
    );
    assert_eq!(stage, Stage::Idle);
    assert!(matches!(
        command,
        Command::Fail(RelayError::WriteError { status: 401, body }) if body == "unauthorized"
    ));
    let (stage, command) = relay_step(Stage::Writing, Event::HttpFailed);
    assert_eq!(stage, Stage::Idle);
    assert!(matches!(command, Command::Fail(RelayError::WriteUnsent)));
}

#[test]
fn success_statuses_are_200_to_299() {
    for status in [200u16, 204, 299] {
        let (stage, command) =
            relay_step(Stage::Writing, Event::HttpReply { status, body: String::new() });
        assert_eq!(stage, Stage::Querying);
        assert!(matches!(command, Command::Query));
    }
    for status in [0u16, 199, 300, 404, 500] {
        let (stage, command) =
            relay_step(Stage::Writing, Event::HttpReply { status, body: String::new() });
        assert_eq!(stage, Stage::Idle);
        assert!(matches!(command, Command::Fail(RelayError::WriteError { .. })));
    }
}

#[test]
fn query_failures_end_the_relay() {
    let (stage, command) =
        relay_step(Stage::Querying, Event::HttpReply { status: 500, body: "boom".to_string() });
    assert_eq!(stage, Stage::Idle);
    assert!(matches!(
        command,
        Command::Fail(RelayError::QueryRejected { status: 500, body }) if body == "boom"
    ));
    let (stage, command) =
        relay_step(Stage::Querying, Event::HttpReply { status: 200, body: String::new() });
    assert_eq!(stage, Stage::Idle);
    assert!(matches!(command, Command::Fail(RelayError::QueryError(QueryError::MissingTime))));
    let (stage, command) = relay_step(Stage::Querying, Event::HttpFailed);
    assert_eq!(stage, Stage::Idle);
    assert!(matches!(command, Command::Fail(RelayError::QueryUnsent)));
}

#[test]
fn publish_failure_ends_the_relay() {
    let (stage, command) = relay_step(Stage::Publishing, Event::PublishFailed);
    assert_eq!(stage, Stage::Idle);
    assert!(matches!(command, Command::Fail(RelayError::PublishError)));
}

#[test]
fn events_out_of_turn_are_ignored() {
    let (stage, command) = relay_step(Stage::Idle, Event::Published);
    assert_eq!(stage, Stage::Idle);
    assert!(matches!(command, Command::Ignore));
    let (stage, command) = relay_step(Stage::Writing, Event::Record { line: "x".to_string() });
    assert_eq!(stage, Stage::Writing);
    assert!(matches!(command, Command::Ignore));
}
