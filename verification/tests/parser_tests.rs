use sensor_relay::fields::{
    is_number_text, json_fields, parse_fields, parse_json_fields, parse_kv_fields,
    parse_single_number, JsonMember,
};
use sensor_relay::ingest::{
    line_at, line_to_influx, reading_line, reading_to_influx, update_pending_from_line, Pending,
};
use sensor_relay::lineproto::{
    encode, epoch_nanos, escape_field_key, escape_measurement, escape_tag_key_or_value, now_nanos,
    quote_string_field,
};
use sensor_relay::text::{to_chars, to_string, trim};

fn pairs(items: &[(&str, &str)]) -> Vec<(String, String)> {
    items.iter().map(|(k, v)| (k.to_string(), v.to_string())).collect()
}

fn number(s: &str) -> bool {
    is_number_text(&s.chars().collect())
}

#[test]
fn json_object_comes_first() {
    let got = parse_fields("{\"x\":1,\"y\":\"a\"}");
    assert_eq!(got, Some(pairs(&[("x", "1"), ("y", "\"a\"")])));
}

#[test]
fn key_value_list_comes_second() {
    assert_eq!(parse_fields("x=1,y=2"), Some(pairs(&[("x", "1"), ("y", "2")])));
}

#[test]
fn bare_number_comes_third() {
    assert_eq!(parse_fields("42.5"), Some(pairs(&[("value", "42.5")])));
}

#[test]
fn unreadable_line_has_no_fields() {
    assert_eq!(parse_fields("not-a-number, no-equals"), None);
}

#[test]
fn json_scalars_and_dropped_members() {
    let got = parse_json_fields("{\"a\":true,\"b\":[1],\"c\":null,\"d\":{\"e\":1},\"f\":\"q\\\"r\",\"g\":-2.5}");
    assert_eq!(got, Some(pairs(&[("a", "true"), ("f", "\"q\\\"r\""), ("g", "-2.5")])));
}

#[test]
fn json_without_scalars_gives_nothing() {
    assert_eq!(parse_json_fields("{\"b\":[1]}"), None);
    assert_eq!(parse_json_fields("{}"), None);
    assert_eq!(parse_json_fields("[1,2]"), None);
    assert_eq!(parse_json_fields("42.5"), None);
    assert_eq!(parse_json_fields("x=1"), None);
}

#[test]
fn json_fields_from_members() {
    let members = vec![
        ("n".to_string(), JsonMember::Number("7".to_string())),
        ("o".to_string(), JsonMember::Other),
        ("b".to_string(), JsonMember::Bool(false)),
        ("t".to_string(), JsonMember::Text("a\\b".to_string())),
    ];
    assert_eq!(json_fields(&members), Some(pairs(&[("n", "7"), ("b", "false"), ("t", "\"a\\\\b\"")])));
    assert_eq!(json_fields(&vec![("o".to_string(), JsonMember::Other)]), None);
    assert_eq!(json_fields(&Vec::new()), None);
}

#[test]
fn key_value_tokens() {
    let got = parse_kv_fields("temp=21.5, on=TRUE off=False name=abc ,, junk =x k=");
    assert_eq!(
        got,
        Some(pairs(&[
            ("temp", "21.5"),
            ("on", "true"),
            ("off", "false"),
            ("name", "\"abc\""),
            ("k", "\"\""),
        ]))
    );
}

#[test]
fn key_value_splits_at_first_equals() {
    assert_eq!(parse_kv_fields("a=b=c"), Some(pairs(&[("a", "\"b=c\"")])));
}

#[test]
fn key_value_needs_a_key_and_an_equals() {
    assert_eq!(parse_kv_fields(""), None);
    assert_eq!(parse_kv_fields(" , "), None);
    assert_eq!(parse_kv_fields("abc def"), None);
    assert_eq!(parse_kv_fields("=5"), None);
}

#[test]
fn key_value_trims_tabs() {
    assert_eq!(parse_kv_fields("\tk\t=\t5\t"), Some(pairs(&[("k", "5")])));
}

#[test]
fn single_number_is_trimmed() {
    assert_eq!(parse_single_number("  42.5 \n"), Some(pairs(&[("value", "42.5")])));
    assert_eq!(parse_single_number("-3"), Some(pairs(&[("value", "-3")])));
    assert_eq!(parse_single_number(""), None);
    assert_eq!(parse_single_number("   "), None);
    assert_eq!(parse_single_number("4 2"), None);
    assert_eq!(parse_single_number("abc"), None);
}

#[test]
fn number_text_grammar() {
    for ok in ["0", "42", "42.5", "-1", "+1", "1.", ".5", "1e5", "1E-5", "1.5e+10", "-.5e3"] {
        assert!(number(ok), "{}", ok);
    }
    for bad in ["", ".", "-", "+", "e5", "1e", "1e+", "1.2.3", "1 ", " 1", "0x10", "1,5", "--1", "abc"] {
        assert!(!number(bad), "{}", bad);
    }
}

#[test]
fn trim_removes_unicode_white_space() {
    let v: Vec<char> = "\u{00A0}\t a b \u{3000}\r\n".chars().collect();
    assert_eq!(to_string(&trim(&v)), "a b");
    assert_eq!(to_string(&trim(&Vec::new())), "");
    assert_eq!(to_string(&trim(&to_chars("   "))), "");
}

#[test]
fn chars_round_trip() {
    assert_eq!(to_string(&to_chars("d\u{00B0}C \u{1F600}")), "d\u{00B0}C \u{1F600}");
}

#[test]
fn names_are_escaped() {
    assert_eq!(escape_measurement("my meas,a=b"), "my\\ meas\\,a\\=b");
    assert_eq!(escape_tag_key_or_value("COM 15"), "COM\\ 15");
    assert_eq!(escape_field_key("k=v"), "k\\=v");
    assert_eq!(escape_field_key("plain"), "plain");
    assert_eq!(escape_field_key(""), "");
}

#[test]
fn string_fields_are_quoted() {
    assert_eq!(quote_string_field("abc"), "\"abc\"");
    assert_eq!(quote_string_field("a\"b\\c"), "\"a\\\"b\\\\c\"");
    assert_eq!(quote_string_field(""), "\"\"");
}

#[test]
fn encode_exact_line() {
    let fields = pairs(&[("temp c", "21.5"), ("name", "\"x\"")]);
    assert_eq!(
        encode("my sensor", "COM,1", &fields, 1700000000123456789),
        "my\\ sensor,source=COM\\,1 temp\\ c=21.5,name=\"x\" 1700000000123456789"
    );
}

#[test]
fn encode_timestamps() {
    let fields = pairs(&[("v", "1")]);
    assert_eq!(encode("m", "s", &fields, 0), "m,source=s v=1 0");
    assert_eq!(encode("m", "s", &fields, 10), "m,source=s v=1 10");
    assert_eq!(encode("m", "s", &fields, -905), "m,source=s v=1 -905");
    assert_eq!(
        encode("m", "s", &fields, i128::MIN),
        format!("m,source=s v=1 {}", i128::MIN)
    );
    assert_eq!(
        encode("m", "s", &fields, i128::MAX),
        format!("m,source=s v=1 {}", i128::MAX)
    );
}

#[test]
fn wall_clock_is_after_2020() {
    assert!(now_nanos() > 1_577_836_800_000_000_000);
}

#[test]
fn line_at_parsed_and_raw() {
    assert_eq!(line_at("sensor", "COM15", "x=1,y=2", true, 5), Some("sensor,source=COM15 x=1,y=2 5".to_string()));
    assert_eq!(
        line_at("sensor", "COM15", "  hello world ", true, 5),
        Some("sensor,source=COM15 raw=\"hello world\" 5".to_string())
    );
    assert_eq!(line_at("sensor", "COM15", "hello world", false, 5), None);
}

#[test]
fn line_to_influx_stamps_the_record() {
    let line = line_to_influx("sensor", "COM15", "42.5", false).unwrap();
    let (head, stamp) = line.rsplit_once(' ').unwrap();
    assert_eq!(head, "sensor,source=COM15 value=42.5");
    assert!(stamp.parse::<i128>().unwrap() > 1_577_836_800_000_000_000);
    assert_eq!(line_to_influx("sensor", "COM15", "nothing here", false), None);
    assert!(line_to_influx("sensor", "COM15", "nothing here", true).is_some());
}

#[test]
fn pair_is_emitted_once_after_second_line() {
    let mut p = Pending::new();
    assert_eq!(update_pending_from_line(&mut p, "RH = 55.0 %"), None);
    let got = update_pending_from_line(&mut p, "T = 26.5 C").unwrap();
    assert_eq!(got.0.parse::<f64>().unwrap(), 55.0);
    assert_eq!(got.1.parse::<f64>().unwrap(), 26.5);
    assert!(p.rh.is_none() && p.t.is_none());
    assert_eq!(update_pending_from_line(&mut p, "something else"), None);
    assert!(p.rh.is_none() && p.t.is_none());
}

#[test]
fn pair_on_one_line_and_in_any_case() {
    let mut p = Pending::new();
    let got = update_pending_from_line(&mut p, "rh=40% t = 21.25 \u{00B0}c");
    assert_eq!(got, Some(("40".to_string(), "21.25".to_string())));
}

#[test]
fn older_half_is_replaced() {
    let mut p = Pending::new();
    assert_eq!(update_pending_from_line(&mut p, "RH = 10 %"), None);
    assert_eq!(update_pending_from_line(&mut p, "RH = 20 %"), None);
    assert_eq!(p.rh, Some("20".to_string()));
    assert_eq!(
        update_pending_from_line(&mut p, "T = 5 C"),
        Some(("20".to_string(), "5".to_string()))
    );
}

#[test]
fn absorb_without_matches_keeps_halves() {
    let mut p = Pending::new();
    assert_eq!(p.absorb(None, Some("3".to_string())), None);
    assert_eq!(p.absorb(None, None), None);
    assert_eq!(p.t, Some("3".to_string()));
    assert_eq!(p.absorb(Some("4".to_string()), None), Some(("4".to_string(), "3".to_string())));
    assert!(p.rh.is_none() && p.t.is_none());
}

#[test]
fn words_that_hold_the_letters_do_not_match() {
    let mut p = Pending::new();
    assert_eq!(update_pending_from_line(&mut p, "ORH = 5 % AT = 3 C"), None);
    assert!(p.rh.is_none() && p.t.is_none());
}

#[test]
fn reading_line_puts_temperature_first() {
    assert_eq!(
        reading_line("sensor", "COM15", "60", "28", 99),
        "sensor,source=COM15 temperature=28,humidity=60 99"
    );
}

#[test]
fn reading_is_stamped_by_the_clock() {
    let line = reading_to_influx("sensor", "COM15", "60", "28");
    let (head, stamp) = line.rsplit_once(' ').unwrap();
    assert_eq!(head, "sensor,source=COM15 temperature=28,humidity=60");
    assert!(stamp.parse::<i128>().unwrap() > 1_577_836_800_000_000_000);
}

#[test]
fn number_text_is_what_parses_as_a_finite_float() {
    let alphabet = ['+', '-', '.', 'e', 'E', '0', '1', '9', ' ', 'x'];
    let mut texts: Vec<String> = vec![String::new()];
    let mut from = 0;
    for _ in 0..5 {
        let upto = texts.len();
        for i in from..upto {
            for c in alphabet {
                let mut t = texts[i].clone();
                t.push(c);
                texts.push(t);
            }
        }
        from = upto;
    }
    assert_eq!(texts.len(), 111_111);
    for t in &texts {
        assert_eq!(number(t), t.parse::<f64>().is_ok(), "{:?}", t);
    }
}

#[test]
fn epoch_nanos_combines_seconds_and_nanoseconds() {
    assert_eq!(epoch_nanos(None), 0);
    assert_eq!(epoch_nanos(Some((0, 0))), 0);
    assert_eq!(epoch_nanos(Some((0, 7))), 7);
    assert_eq!(epoch_nanos(Some((1_700_000_000, 123_456_789))), 1_700_000_000_123_456_789);
    assert_eq!(
        epoch_nanos(Some((u64::MAX, 999_999_999))),
        18_446_744_073_709_551_615_999_999_999
    );
}
