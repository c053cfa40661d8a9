//! The message model and the exchange fold: decode of each wire shape,
//! query encoding, deduplication, and whole-exchange scenarios.

use md_qa_client::{
    collect_stream_events, deduplicate_sources, DecodeError, Frame, QueryMessage, ServerMessage,
    StreamEvent,
};

fn text_frame(t: &str) -> Frame {
    Frame::Text(t.to_string())
}

fn strings(list: &[&str]) -> Vec<String> {
    list.iter().map(|s| s.to_string()).collect()
}

// ─── Decoding single frames ──────────────────────────────────────────────

#[test]
fn decode_stream_start() {
    let m = ServerMessage::from_json(r#"{"type":"stream_start"}"#).expect("should decode");
    assert!(matches!(m, ServerMessage::StreamStart));
}

#[test]
fn decode_stream_chunk() {
    let m = ServerMessage::from_json(r#"{"type":"stream_chunk","chunk":"Hello."}"#)
        .expect("should decode");
    match m {
        ServerMessage::StreamChunk(c) => assert_eq!(c, "Hello."),
        other => panic!("expected a chunk, got {other:?}"),
    }
}

#[test]
fn decode_stream_end() {
    let m = ServerMessage::from_json(r#"{"type":"stream_end","sources":["/a.md","/b.md"]}"#)
        .expect("should decode");
    match m {
        ServerMessage::StreamEnd(sources) => assert_eq!(sources, strings(&["/a.md", "/b.md"])),
        other => panic!("expected a stream end, got {other:?}"),
    }
}

#[test]
fn decode_error_message() {
    let m = ServerMessage::from_json(r#"{"type":"error","message":"Server not ready."}"#)
        .expect("should decode");
    match m {
        ServerMessage::Error(message) => assert_eq!(message, "Server not ready."),
        other => panic!("expected an error, got {other:?}"),
    }
}

#[test]
fn decode_status_with_and_without_message() {
    let m = ServerMessage::from_json(r#"{"type":"status","status":"indexing","message":"5 left"}"#)
        .expect("should decode");
    match m {
        ServerMessage::Status { status, message } => {
            assert_eq!(status, "indexing");
            assert_eq!(message.as_deref(), Some("5 left"));
        }
        other => panic!("expected a status, got {other:?}"),
    }
    let m = ServerMessage::from_json(r#"{"type":"status","status":"ready"}"#)
        .expect("should decode");
    match m {
        ServerMessage::Status { status, message } => {
            assert_eq!(status, "ready");
            assert_eq!(message, None);
        }
        other => panic!("expected a status, got {other:?}"),
    }
    let m = ServerMessage::from_json(r#"{"type":"status","status":"ready","message":null}"#)
        .expect("should decode");
    match m {
        ServerMessage::Status { message, .. } => assert_eq!(message, None),
        other => panic!("expected a status, got {other:?}"),
    }
}

#[test]
fn decode_response_accepts_mixed_sources() {
    let m = ServerMessage::from_json(r#"{"type":"response","answer":"42","sources":["/a.md",7]}"#)
        .expect("should decode");
    match m {
        ServerMessage::Response { answer, sources } => {
            assert_eq!(answer, "42");
            assert_eq!(sources.len(), 2);
        }
        other => panic!("expected a response, got {other:?}"),
    }
}

#[test]
fn decode_unknown_type_fails() {
    let e = ServerMessage::from_json(r#"{"type":"surprise"}"#).expect_err("should fail");
    match &e {
        DecodeError::UnknownType(t) => assert_eq!(t, "surprise"),
        other => panic!("expected an unknown type failure, got {other:?}"),
    }
    assert_eq!(e.message(), "unknown type: surprise");
}

#[test]
fn decode_missing_type_fails() {
    let e = ServerMessage::from_json(r#"{"chunk":"hi"}"#).expect_err("should fail");
    assert!(matches!(e, DecodeError::MissingType));
    assert_eq!(e.message(), "missing type");
    let e = ServerMessage::from_json(r#"{"type":7}"#).expect_err("should fail");
    assert!(matches!(e, DecodeError::MissingType));
}

#[test]
fn decode_missing_required_field_fails() {
    let e = ServerMessage::from_json(r#"{"type":"stream_chunk"}"#).expect_err("should fail");
    assert!(matches!(e, DecodeError::BadField { .. }));
    assert_eq!(e.message(), "stream_chunk: missing or invalid field: chunk");
    let e = ServerMessage::from_json(r#"{"type":"stream_end","sources":["/a.md",3]}"#)
        .expect_err("should fail");
    assert_eq!(e.message(), "stream_end: missing or invalid field: sources");
    let e = ServerMessage::from_json(r#"{"type":"error"}"#).expect_err("should fail");
    assert_eq!(e.message(), "error: missing or invalid field: message");
    let e = ServerMessage::from_json(r#"{"type":"status","status":"ok","message":3}"#)
        .expect_err("should fail");
    assert_eq!(e.message(), "status: missing or invalid field: message");
    let e = ServerMessage::from_json(r#"{"type":"response","answer":"x"}"#)
        .expect_err("should fail");
    assert_eq!(e.message(), "response: missing or invalid field: sources");
}

#[test]
fn decode_malformed_text_fails() {
    let e = ServerMessage::from_json("not json at all").expect_err("should fail");
    assert!(matches!(e, DecodeError::Malformed(_)));
    assert!(e.message().starts_with("invalid message: "));
}

// ─── Encoding queries ────────────────────────────────────────────────────

#[test]
fn encode_query_without_index() {
    let q = QueryMessage::new("hi", None);
    assert_eq!(q.to_json(), r#"{"type":"query","question":"hi"}"#);
}

#[test]
fn encode_query_with_index() {
    let q = QueryMessage::new("hi", Some("notes"));
    assert_eq!(q.to_json(), r#"{"type":"query","question":"hi","index":"notes"}"#);
}

#[test]
fn encode_query_escapes_question() {
    let q = QueryMessage::new("a \"b\"\nc", None);
    assert_eq!(q.to_json(), r#"{"type":"query","question":"a \"b\"\nc"}"#);
}

#[test]
fn query_payload_round_trip() {
    let q = QueryMessage::new("What is Rust?", Some("notes"));
    let doc = q.to_fields();
    let back = QueryMessage::from_fields(&doc).expect("should read back");
    assert_eq!(back.question, "What is Rust?");
    assert_eq!(back.index, Some("notes"));

    let q = QueryMessage::new("bare", None);
    let doc = q.to_fields();
    let back = QueryMessage::from_fields(&doc).expect("should read back");
    assert_eq!(back.question, "bare");
    assert_eq!(back.index, None);
}

// ─── Source deduplication ────────────────────────────────────────────────

#[test]
fn dedupe_keeps_first_occurrence_order() {
    let out = deduplicate_sources(strings(&["/b.md", "/a.md", "/b.md", "/c.md", "/a.md"]));
    assert_eq!(out, strings(&["/b.md", "/a.md", "/c.md"]));
}

#[test]
fn dedupe_of_distinct_list_is_identity() {
    let out = deduplicate_sources(strings(&["/a.md", "/b.md"]));
    assert_eq!(out, strings(&["/a.md", "/b.md"]));
}

#[test]
fn dedupe_is_idempotent() {
    let once = deduplicate_sources(strings(&["/a.md", "/a.md", "/b.md", "/a.md"]));
    let twice = deduplicate_sources(once.clone());
    assert_eq!(once, twice);
}

#[test]
fn dedupe_of_empty_list_is_empty() {
    assert_eq!(deduplicate_sources(Vec::new()), Vec::<String>::new());
}

// ─── Whole exchanges ─────────────────────────────────────────────────────

#[test]
fn exchange_collects_chunks_and_sources() {
    let frames = vec![
        text_frame(r#"{"type":"stream_start"}"#),
        text_frame(r#"{"type":"stream_chunk","chunk":"Hello "}"#),
        text_frame(r#"{"type":"stream_chunk","chunk":"world!"}"#),
        text_frame(r#"{"type":"stream_end","sources":["/x.md","/y.md"]}"#),
    ];
    let events = collect_stream_events(frames).expect("exchange should succeed");
    assert_eq!(
        events,
        vec![
            StreamEvent::StreamStart,
            StreamEvent::StreamChunk("Hello ".to_string()),
            StreamEvent::StreamChunk("world!".to_string()),
            StreamEvent::StreamEnd(strings(&["/x.md", "/y.md"])),
        ]
    );
    let reply = md_qa_client::assemble_reply(&events);
    assert_eq!(reply.answer, "Hello world!");
    assert_eq!(reply.sources, strings(&["/x.md", "/y.md"]));
    assert_eq!(reply.error, None);
}

#[test]
fn exchange_deduplicates_stream_end_sources() {
    let frames = vec![text_frame(r#"{"type":"stream_end","sources":["/a.md","/a.md","/b.md"]}"#)];
    let events = collect_stream_events(frames).expect("exchange should succeed");
    assert_eq!(events, vec![StreamEvent::StreamEnd(strings(&["/a.md", "/b.md"]))]);
}

#[test]
fn exchange_with_only_error_yields_one_error_event() {
    let frames = vec![text_frame(r#"{"type":"error","message":"Index not ready"}"#)];
    let events = collect_stream_events(frames).expect("exchange should succeed");
    assert_eq!(events, vec![StreamEvent::Error("Index not ready".to_string())]);
}

#[test]
fn exchange_stops_at_terminal_event() {
    let frames = vec![
        text_frame(r#"{"type":"stream_end","sources":[]}"#),
        text_frame(r#"{"type":"stream_chunk","chunk":"late"}"#),
    ];
    let events = collect_stream_events(frames).expect("exchange should succeed");
    assert_eq!(events, vec![StreamEvent::StreamEnd(Vec::new())]);
}

#[test]
fn exchange_stops_at_close_frame() {
    let frames = vec![
        text_frame(r#"{"type":"stream_start"}"#),
        Frame::Close,
        text_frame(r#"{"type":"stream_chunk","chunk":"late"}"#),
    ];
    let events = collect_stream_events(frames).expect("exchange should succeed");
    assert_eq!(events, vec![StreamEvent::StreamStart]);
}

#[test]
fn exchange_ignores_other_frames_and_status() {
    let frames = vec![
        Frame::Other,
        text_frame(r#"{"type":"status","status":"indexing"}"#),
        text_frame(r#"{"type":"response","answer":"n/a","sources":[]}"#),
        text_frame(r#"{"type":"stream_chunk","chunk":"hi"}"#),
    ];
    let events = collect_stream_events(frames).expect("exchange should succeed");
    assert_eq!(events, vec![StreamEvent::StreamChunk("hi".to_string())]);
}

#[test]
fn exchange_with_unrecognized_type_fails_whole_query() {
    let frames = vec![
        text_frame(r#"{"type":"stream_start"}"#),
        text_frame(r#"{"type":"surprise"}"#),
        text_frame(r#"{"type":"stream_end","sources":[]}"#),
    ];
    let e = collect_stream_events(frames).expect_err("exchange should fail");
    match e {
        DecodeError::UnknownType(t) => assert_eq!(t, "surprise"),
        other => panic!("expected an unknown type failure, got {other:?}"),
    }
}

#[test]
fn server_url_renders_the_port_in_decimal() {
    assert_eq!(md_qa_client::client::server_url(8765), "ws://127.0.0.1:8765");
    assert_eq!(md_qa_client::client::server_url(0), "ws://127.0.0.1:0");
    assert_eq!(md_qa_client::client::server_url(65535), "ws://127.0.0.1:65535");
}

#[test]
fn exchange_without_frames_yields_no_events() {
    let events = collect_stream_events(Vec::new()).expect("exchange should succeed");
    assert_eq!(events, Vec::<StreamEvent>::new());
}
