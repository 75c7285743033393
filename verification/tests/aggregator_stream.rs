//! Feeding raw stream lines through the decoder and aggregator.

use johnathan::aggregator::Aggregator;
use johnathan::messages::ChatResponse;

fn run_lines(lines: &[&str]) -> ChatResponse {
    let mut agg = Aggregator::new();
    for line in lines {
        agg.process_line(line);
    }
    agg.finish()
}

#[test]
fn text_chunks_concatenate_in_order() {
    let resp = run_lines(&[
        "data: {\"type\":\"content_block_start\",\"index\":0,\"content_block\":{\"type\":\"text\"}}",
        "data: {\"type\":\"content_block_delta\",\"index\":0,\"delta\":{\"type\":\"text_delta\",\"text\":\"A\"}}",
        "data: {\"type\":\"content_block_delta\",\"index\":0,\"delta\":{\"type\":\"text_delta\",\"text\":\"B\"}}",
        "data: {\"type\":\"content_block_delta\",\"index\":0,\"delta\":{\"type\":\"text_delta\",\"text\":\"C\"}}",
        "data: {\"type\":\"content_block_stop\",\"index\":0}",
    ]);
    assert_eq!(resp.text, "ABC");

    let resp2 = run_lines(&[
        "data: {\"type\":\"content_block_delta\",\"index\":0,\"delta\":{\"type\":\"text_delta\",\"text\":\"AB\"}}",
        "data: {\"type\":\"content_block_delta\",\"index\":0,\"delta\":{\"type\":\"text_delta\",\"text\":\"C\"}}",
    ]);
    assert_eq!(resp2.text, "ABC");
}

#[test]
fn text_fragments_are_handed_out_once_in_order() {
    let mut agg = Aggregator::new();
    let none = agg.process_line(
        "data: {\"type\":\"content_block_start\",\"index\":0,\"content_block\":{\"type\":\"text\"}}",
    );
    assert!(none.is_none());
    let first = agg.process_line(
        "data: {\"type\":\"content_block_delta\",\"index\":0,\"delta\":{\"type\":\"text_delta\",\"text\":\"Hel\"}}",
    );
    assert_eq!(first.as_deref(), Some("Hel"));
    let second = agg.process_line(
        "data: {\"type\":\"content_block_delta\",\"index\":0,\"delta\":{\"type\":\"text_delta\",\"text\":\"lo\"}}",
    );
    assert_eq!(second.as_deref(), Some("lo"));
    assert_eq!(agg.finish().text, "Hello");
}

#[test]
fn lines_without_marker_and_terminator_are_ignored() {
    let resp = run_lines(&[
        "",
        "event: message_start",
        ": keep-alive comment",
        "data: [DONE]",
        "data: {not json",
        "data: {\"type\":\"unheard_of_event\",\"index\":9}",
    ]);
    assert_eq!(resp.text, "");
    assert_eq!(resp.stop_reason, "unknown");
    assert!(resp.tool_calls.is_empty());
}

#[test]
fn tool_calls_match_starts_in_count_and_order() {
    let resp = run_lines(&[
        "data: {\"type\":\"content_block_start\",\"index\":0,\"content_block\":{\"type\":\"tool_use\",\"id\":\"t1\",\"name\":\"alpha\"}}",
        "data: {\"type\":\"content_block_delta\",\"index\":0,\"delta\":{\"type\":\"input_json_delta\",\"partial_json\":\"{}\"}}",
        "data: {\"type\":\"content_block_stop\",\"index\":0}",
        "data: {\"type\":\"content_block_start\",\"index\":1,\"content_block\":{\"type\":\"text\"}}",
        "data: {\"type\":\"content_block_delta\",\"index\":1,\"delta\":{\"type\":\"text_delta\",\"text\":\"between\"}}",
        "data: {\"type\":\"content_block_stop\",\"index\":1}",
        "data: {\"type\":\"content_block_start\",\"index\":2,\"content_block\":{\"type\":\"tool_use\",\"id\":\"t2\",\"name\":\"beta\"}}",
        "data: {\"type\":\"content_block_stop\",\"index\":2}",
    ]);
    assert_eq!(resp.tool_calls.len(), 2);
    assert_eq!(resp.tool_calls[0].id, "t1");
    assert_eq!(resp.tool_calls[0].name, "alpha");
    assert_eq!(resp.tool_calls[1].id, "t2");
    assert_eq!(resp.tool_calls[1].name, "beta");
    assert_eq!(resp.text, "between");
}

#[test]
fn partial_json_reassembles_across_fragments() {
    let resp = run_lines(&[
        "data: {\"type\":\"content_block_start\",\"index\":0,\"content_block\":{\"type\":\"tool_use\",\"id\":\"t1\",\"name\":\"alpha\"}}",
        "data: {\"type\":\"content_block_delta\",\"index\":0,\"delta\":{\"type\":\"input_json_delta\",\"partial_json\":\"{\\\"a\\\":1\"}}",
        "data: {\"type\":\"content_block_delta\",\"index\":0,\"delta\":{\"type\":\"input_json_delta\",\"partial_json\":\"}\"}}",
        "data: {\"type\":\"content_block_stop\",\"index\":0}",
    ]);
    assert_eq!(resp.tool_calls.len(), 1);
    let expected: serde_json::Value = serde_json::from_str("{\"a\":1}").unwrap();
    assert_eq!(resp.tool_calls[0].input, expected);
}

#[test]
fn malformed_tool_json_degrades_to_empty_object() {
    let resp = run_lines(&[
        "data: {\"type\":\"content_block_start\",\"index\":0,\"content_block\":{\"type\":\"tool_use\",\"id\":\"t1\",\"name\":\"alpha\"}}",
        "data: {\"type\":\"content_block_delta\",\"index\":0,\"delta\":{\"type\":\"input_json_delta\",\"partial_json\":\"{not json\"}}",
        "data: {\"type\":\"content_block_stop\",\"index\":0}",
    ]);
    assert_eq!(resp.tool_calls.len(), 1);
    let empty: serde_json::Value = serde_json::from_str("{}").unwrap();
    assert_eq!(resp.tool_calls[0].input, empty);
}

#[test]
fn stop_reason_defaults_overwrites_and_keeps() {
    let resp = run_lines(&[
        "data: {\"type\":\"content_block_delta\",\"index\":0,\"delta\":{\"type\":\"text_delta\",\"text\":\"hi\"}}",
    ]);
    assert_eq!(resp.stop_reason, "unknown");

    let resp2 = run_lines(&[
        "data: {\"type\":\"message_delta\",\"delta\":{\"stop_reason\":\"end_turn\"}}",
        "data: {\"type\":\"message_delta\",\"delta\":{\"stop_reason\":\"tool_use\"}}",
    ]);
    assert_eq!(resp2.stop_reason, "tool_use");

    let resp3 = run_lines(&[
        "data: {\"type\":\"message_delta\",\"delta\":{\"stop_reason\":\"end_turn\"}}",
        "data: {\"type\":\"message_delta\",\"delta\":{}}",
    ]);
    assert_eq!(resp3.stop_reason, "end_turn");
}

#[test]
fn json_fragment_without_open_tool_is_discarded() {
    let resp = run_lines(&[
        "data: {\"type\":\"content_block_delta\",\"index\":0,\"delta\":{\"type\":\"input_json_delta\",\"partial_json\":\"{}\"}}",
        "data: {\"type\":\"content_block_stop\",\"index\":0}",
    ]);
    assert!(resp.tool_calls.is_empty());
}

#[test]
fn reopened_tool_use_discards_the_incomplete_one() {
    let resp = run_lines(&[
        "data: {\"type\":\"content_block_start\",\"index\":0,\"content_block\":{\"type\":\"tool_use\",\"id\":\"t1\",\"name\":\"alpha\"}}",
        "data: {\"type\":\"content_block_start\",\"index\":1,\"content_block\":{\"type\":\"tool_use\",\"id\":\"t2\",\"name\":\"beta\"}}",
        "data: {\"type\":\"content_block_stop\",\"index\":1}",
    ]);
    assert_eq!(resp.tool_calls.len(), 1);
    assert_eq!(resp.tool_calls[0].id, "t2");
}

#[test]
fn open_tool_never_closed_is_dropped_at_end() {
    let resp = run_lines(&[
        "data: {\"type\":\"content_block_start\",\"index\":0,\"content_block\":{\"type\":\"tool_use\",\"id\":\"t1\",\"name\":\"alpha\"}}",
        "data: {\"type\":\"content_block_delta\",\"index\":0,\"delta\":{\"type\":\"input_json_delta\",\"partial_json\":\"{}\"}}",
    ]);
    assert!(resp.tool_calls.is_empty());
}
