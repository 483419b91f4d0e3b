use angry_hub::log::{escape, event_lines, Value};

#[test]
fn strings_are_escaped_for_json() {
    assert_eq!(escape("plain"), "\"plain\"");
    assert_eq!(escape("a\"b\\c"), "\"a\\\"b\\\\c\"");
    assert_eq!(escape("line\nbreak\ttab\r"), "\"line\\nbreak\\ttab\\r\"");
    assert_eq!(escape("\u{1}\u{1f}"), "\"\\u0001\\u001f\"");
    assert_eq!(escape("é"), "\"é\"");
}

#[test]
fn an_event_has_a_json_and_a_readable_line() {
    let fields = [
        ("repo", Value::from(String::from("acme/app"))),
        ("count", Value::from(-3i64)),
        ("ok", Value::from(true)),
        ("size", Value::from(7usize)),
    ];
    let (json, readable) = event_lines(1700000000, "info", "sync", &fields);
    assert_eq!(
        json,
        "{\"time\":1700000000,\"level\":\"info\",\"event\":\"sync\",\"repo\":\"acme/app\",\"count\":-3,\"ok\":true,\"size\":7}\n"
    );
    assert_eq!(readable, "time=1700000000 level=info event=sync repo=acme/app count=-3 ok=true size=7\n");
}

#[test]
fn the_smallest_integer_is_written_in_full() {
    let fields = [("n", Value::from(i64::MIN))];
    let (json, _) = event_lines(0, "error", "e", &fields);
    assert_eq!(json, "{\"time\":0,\"level\":\"error\",\"event\":\"e\",\"n\":-9223372036854775808}\n");
}
