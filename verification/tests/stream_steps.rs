use opengatellm::{chunk_payloads, is_done_event, ChunkStream, Error, SseItem};

fn ev(data: &str) -> SseItem {
    SseItem::Event { data: data.to_owned() }
}

fn fail(message: &str) -> SseItem {
    SseItem::Failure { message: message.to_owned() }
}

#[test]
fn done_sentinel_is_recognised_with_white_space() {
    assert!(is_done_event("[DONE]"));
    assert!(is_done_event("  [DONE]  "));
    assert!(is_done_event("\n[DONE]\t"));
    assert!(is_done_event("\u{3000}[DONE]\u{a0}"));
    assert!(!is_done_event("[DONE]x"));
    assert!(!is_done_event("[done]"));
    assert!(!is_done_event("{}"));
    assert!(!is_done_event(""));
}

#[test]
fn stream_yields_payloads_then_stops_on_done() {
    let mut s = ChunkStream::new();
    assert!(!s.is_finished());
    match s.step(ev("{\"a\":1}")) {
        Some(Ok(d)) => assert_eq!(d, "{\"a\":1}"),
        other => panic!("expected a payload, got {other:?}"),
    }
    assert!(s.step(ev(" [DONE] ")).is_none());
    assert!(s.is_finished());
    assert!(s.step(ev("{\"b\":2}")).is_none());
    assert!(s.step(fail("late")).is_none());
    assert!(s.is_finished());
}

#[test]
fn stream_failure_does_not_end_stream() {
    let mut s = ChunkStream::new();
    match s.step(fail("bad utf8")) {
        Some(Err(Error::Stream(m))) => assert_eq!(m, "bad utf8"),
        other => panic!("expected Error::Stream, got {other:?}"),
    }
    assert!(!s.is_finished());
    assert!(matches!(s.step(ev("x")), Some(Ok(_))));
}

#[test]
fn payloads_stop_before_done_and_drop_the_rest() {
    let items = vec![
        ev("{\"id\":\"c1\",\"choices\":[{\"delta\":{\"content\":\"Hel\"}}]}"),
        ev("{\"id\":\"c1\",\"choices\":[{\"delta\":{\"content\":\"lo\"}}]}"),
        ev("{\"id\":\"c1\",\"choices\":[{\"delta\":{},\"finish_reason\":\"stop\"}]}"),
        ev("[DONE]"),
        ev("{\"after\":true}"),
    ];
    let out = chunk_payloads(items);
    assert_eq!(out.len(), 3, "[DONE] must terminate before being emitted");
    assert!(out.iter().all(|r| matches!(r, Ok(d) if !d.contains("DONE") && !d.contains("after"))));
}

#[test]
fn payloads_with_padded_done_and_failures() {
    let out = chunk_payloads(vec![ev("{}"), fail("oops"), ev("  [DONE]  "), ev("{}")]);
    assert_eq!(out.len(), 2);
    assert!(matches!(&out[0], Ok(d) if d == "{}"));
    assert!(matches!(&out[1], Err(Error::Stream(m)) if m == "oops"));
}

#[test]
fn payloads_without_done_keep_everything() {
    let out = chunk_payloads(vec![ev("{not json}"), ev("1")]);
    assert_eq!(out.len(), 2);
    assert!(chunk_payloads(Vec::new()).is_empty());
    assert!(chunk_payloads(vec![ev("[DONE]")]).is_empty());
}
