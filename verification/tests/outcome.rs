use surrealist::encode::encode;
use surrealist::outcome::{
    make_error, outcome_for, outcome_from, outcomes_of, process_result, Elapsed, StatementOutcome,
    StatementReply, Status, Submission,
};

fn millis(ms: u32) -> Option<Elapsed> {
    Elapsed::new(0, ms * 1_000_000)
}

fn parse(text: &str) -> Vec<serde_json::Value> {
    match serde_json::from_str::<serde_json::Value>(text) {
        Ok(serde_json::Value::Array(items)) => items,
        _ => panic!("expected an array"),
    }
}

#[test]
fn elapsed_takes_less_than_a_second_of_nanos() {
    assert!(Elapsed::new(5, 999_999_999).is_some());
    assert!(Elapsed::new(5, 1_000_000_000).is_none());
    assert!(Elapsed::new(u64::MAX, u32::MAX).is_none());
}

#[test]
fn elapsed_renders_like_a_debugged_duration() {
    assert_eq!(Elapsed::new(0, 123_456_000).unwrap().render(), "123.456ms");
    assert_eq!(Elapsed::new(0, 0).unwrap().render(), "0ns");
    assert_eq!(Elapsed::new(1, 500_000_000).unwrap().render(), "1.5s");
    assert_eq!(Elapsed::new(0, 12_000).unwrap().render(), "12µs");
    assert_eq!(Elapsed::new(u64::MAX, 999_999_999).unwrap().render(), "18446744073709551615.999999999s");
}

#[test]
fn success_needs_the_text_of_one_value() {
    assert!(StatementOutcome::success("[1,2]".to_string(), None).is_some());
    assert!(StatementOutcome::success("\"a,b]\"".to_string(), None).is_some());
    assert!(StatementOutcome::success("null".to_string(), None).is_some());
    assert!(StatementOutcome::success("".to_string(), None).is_none());
    assert!(StatementOutcome::success("1,2".to_string(), None).is_none());
    assert!(StatementOutcome::success("[1".to_string(), None).is_none());
    assert!(StatementOutcome::success("1]".to_string(), None).is_none());
    assert!(StatementOutcome::success("\"open".to_string(), None).is_none());
}

#[test]
fn outcome_reports_its_parts() {
    let ok = StatementOutcome::success("{\"a\":1}".to_string(), Some("1ms".to_string())).unwrap();
    assert_eq!(ok.status(), Status::Success);
    assert_eq!(ok.text(), "{\"a\":1}");
    assert_eq!(ok.time(), &Some("1ms".to_string()));
    let failed = StatementOutcome::error("boom".to_string(), None);
    assert_eq!(failed.status(), Status::Error);
    assert_eq!(failed.text(), "boom");
    assert_eq!(failed.time(), &None);
}

#[test]
fn outcome_from_body_and_time() {
    let ok = outcome_from(Ok("[]".to_string()), Some("2ms".to_string())).unwrap();
    assert_eq!(ok.status(), Status::Success);
    assert_eq!(ok.text(), "[]");
    assert_eq!(ok.time(), &Some("2ms".to_string()));
    let failed = outcome_from(Err("no table".to_string()), None).unwrap();
    assert_eq!(failed.status(), Status::Error);
    assert_eq!(failed.text(), "no table");
    assert!(outcome_from(Ok("[".to_string()), None).is_none());
}

#[test]
fn reply_value_must_be_one_value() {
    assert!(StatementReply::value(None, "{}".to_string()).is_some());
    assert!(StatementReply::value(None, "}".to_string()).is_none());
}

#[test]
fn outcome_for_renders_the_time() {
    let reply = StatementReply::value(millis(5), "[]".to_string()).unwrap();
    let outcome = outcome_for(&reply);
    assert_eq!(outcome.status(), Status::Success);
    assert_eq!(outcome.time(), &Some("5ms".to_string()));
    let reply = StatementReply::error(None, "x".to_string());
    let outcome = outcome_for(&reply);
    assert_eq!(outcome.status(), Status::Error);
    assert_eq!(outcome.time(), &None);
}

#[test]
fn process_result_gives_one_outcome_for_each_statement_in_order() {
    let mut replies = Vec::new();
    for i in 0..10u32 {
        if i == 3 {
            replies.push(StatementReply::error(millis(i), "failed".to_string()));
        } else {
            replies.push(StatementReply::value(millis(i), format!("[{}]", i)).unwrap());
        }
    }
    let outcomes = process_result(&replies);
    assert_eq!(outcomes.len(), 10);
    for (i, outcome) in outcomes.iter().enumerate() {
        if i == 3 {
            assert_eq!(outcome.status(), Status::Error);
            assert_eq!(outcome.text(), "failed");
        } else {
            assert_eq!(outcome.status(), Status::Success);
            assert_eq!(outcome.text(), &format!("[{}]", i));
        }
        assert_eq!(outcome.time(), &Some(format!("{}ms", i).replace("0ms", "0ns")));
    }
}

#[test]
fn script_without_statements_gives_no_outcomes() {
    let outcomes = outcomes_of(&Submission::Completed(Vec::new()));
    assert!(outcomes.is_empty());
    assert_eq!(encode(&outcomes), "[]");
}

#[test]
fn make_error_gives_one_error_without_time() {
    let outcomes = make_error("No connection open");
    assert_eq!(outcomes.len(), 1);
    assert_eq!(outcomes[0].status(), Status::Error);
    assert_eq!(outcomes[0].text(), "No connection open");
    assert_eq!(outcomes[0].time(), &None);
}

#[test]
fn zero_second_timeout_gives_the_timeout_outcome() {
    let outcomes = outcomes_of(&Submission::TimedOut(0));
    assert_eq!(
        encode(&outcomes),
        "[{\"message\":\"Query timed out after 0 seconds\",\"status\":\"error\"}]"
    );
}

#[test]
fn timeout_message_names_the_seconds() {
    let outcomes = outcomes_of(&Submission::TimedOut(18446744073709551615));
    assert_eq!(outcomes.len(), 1);
    assert_eq!(outcomes[0].text(), "Query timed out after 18446744073709551615 seconds");
    let outcomes = outcomes_of(&Submission::TimedOut(30));
    assert_eq!(outcomes[0].text(), "Query timed out after 30 seconds");
}

#[test]
fn failed_submission_carries_the_description() {
    let outcomes = outcomes_of(&Submission::Failed("connection dropped".to_string()));
    assert_eq!(outcomes.len(), 1);
    assert_eq!(outcomes[0].status(), Status::Error);
    assert_eq!(outcomes[0].text(), "connection dropped");
}

#[test]
fn second_statement_fails_first_is_still_reported() {
    let replies = vec![
        StatementReply::value(None, "[{\"id\":\"x:1\"}]".to_string()).unwrap(),
        StatementReply::error(None, "The table 'y' does not exist".to_string()),
    ];
    let text = encode(&outcomes_of(&Submission::Completed(replies)));
    assert_eq!(
        text,
        "[{\"result\":[{\"id\":\"x:1\"}],\"status\":\"ok\"},{\"message\":\"The table 'y' does not exist\",\"status\":\"error\"}]"
    );
    let items = parse(&text);
    assert_eq!(items.len(), 2);
    assert_eq!(items[0]["status"], "ok");
    assert_eq!(items[0]["result"][0]["id"], "x:1");
    assert_eq!(items[1]["status"], "error");
    assert_eq!(items[1]["message"], "The table 'y' does not exist");
}

#[test]
fn time_is_written_where_it_was_reported() {
    let replies = vec![
        StatementReply::value(millis(123), "null".to_string()).unwrap(),
        StatementReply::error(Elapsed::new(0, 123_456_000), "bad".to_string()),
    ];
    let text = encode(&process_result(&replies));
    assert_eq!(
        text,
        "[{\"result\":null,\"status\":\"ok\",\"time\":\"123ms\"},{\"message\":\"bad\",\"status\":\"error\",\"time\":\"123.456ms\"}]"
    );
}

#[test]
fn encoded_document_parses_back_to_the_same_values() {
    let value = "{\"name\":\"a \\\"quoted\\\" [name], {x}\",\"list\":[1,2.5,-3e10,true,null,{\"id\":\"person:⟨a-b⟩\"}],\"time\":\"1h30m\"}";
    let message = "line one\nline \"two\"\t\\ back\u{1}slash \u{7f} µ \u{1F600}";
    let outcomes = vec![
        StatementOutcome::success(value.to_string(), Some("12µs".to_string())).unwrap(),
        StatementOutcome::error(message.to_string(), None),
        StatementOutcome::success("9007199254740993".to_string(), None).unwrap(),
    ];
    let text = encode(&outcomes);
    let items = parse(&text);
    assert_eq!(items.len(), 3);
    assert_eq!(items[0]["status"], "ok");
    assert_eq!(items[0]["result"], serde_json::from_str::<serde_json::Value>(value).unwrap());
    assert_eq!(items[0]["time"], "12µs");
    assert_eq!(items[1]["status"], "error");
    assert_eq!(items[1]["message"], message);
    assert!(items[1].get("time").is_none());
    assert!(items[1].get("result").is_none());
    assert_eq!(items[2]["result"], serde_json::from_str::<serde_json::Value>("9007199254740993").unwrap());
    assert!(text.contains("\"result\":9007199254740993,"));
}

#[test]
fn control_characters_are_escaped_in_messages() {
    let outcomes = vec![StatementOutcome::error("a\u{0}b\u{8}c\u{c}d\u{1f}e\r".to_string(), None)];
    assert_eq!(
        encode(&outcomes),
        "[{\"message\":\"a\\u0000b\\bc\\fd\\u001fe\\r\",\"status\":\"error\"}]"
    );
}
