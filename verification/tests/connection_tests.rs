use bridge::connection::Connection;
use bridge::messages::{ClientEvent, OutFrame};

fn text_of(f: &OutFrame) -> Option<&str> {
    match f {
        OutFrame::Text(s) => Some(s.as_str()),
        OutFrame::Close => None,
    }
}

#[test]
fn valid_key_grants_and_stays_open() {
    let mut conn = Connection::new("secret".to_string());
    let out = conn.step(ClientEvent::Text("{\"type\":\"auth\",\"key\":\"secret\"}".to_string()));
    assert_eq!(out.len(), 2);
    assert_eq!(
        text_of(&out[0]),
        Some(
            "{\"type\":\"auth_response\",\"status\":\"success\",\"message\":\"Authenticated successfully\"}"
        )
    );
    assert_eq!(text_of(&out[1]), Some("Hello from the other side"));
    assert!(conn.is_authenticated());
    assert!(!conn.is_closed());
    // The connection accepts further frames.
    let out = conn.step(ClientEvent::Text("ping".to_string()));
    assert_eq!(out.len(), 1);
    assert_eq!(text_of(&out[0]), Some("Healthy"));
    assert!(conn.is_authenticated());
}

#[test]
fn extra_fields_and_order_do_not_matter() {
    let mut conn = Connection::new("secret".to_string());
    let out = conn.step(ClientEvent::Text(
        " { \"extra\": [1, 2], \"key\": \"secret\", \"type\": \"auth\" } ".to_string(),
    ));
    assert_eq!(out.len(), 2);
    assert!(conn.is_authenticated());
}

#[test]
fn wrong_key_is_rejected_without_welcome() {
    let mut conn = Connection::new("secret".to_string());
    let out = conn.step(ClientEvent::Text("{\"type\":\"auth\",\"key\":\"wrong\"}".to_string()));
    assert_eq!(out.len(), 2);
    assert_eq!(
        text_of(&out[0]),
        Some(
            "{\"type\":\"auth_response\",\"status\":\"error\",\"message\":\"Invalid authentication key\"}"
        )
    );
    assert!(matches!(out[1], OutFrame::Close));
    assert!(conn.is_closed());
    // No frame mentions the welcome text.
    for f in &out {
        assert_ne!(text_of(f), Some("Hello from the other side"));
    }
}

#[test]
fn malformed_first_frames_require_authentication() {
    let malformed = [
        "not json at all",
        "{\"type\":\"other\",\"key\":\"secret\"}",
        "{\"type\":\"auth\"}",
        "{\"type\":5,\"key\":\"secret\"}",
        "{\"key\":\"secret\"}",
        "[\"type\",\"auth\"]",
        "{\"type\":\"auth\",\"key\":7}",
        "",
    ];
    for frame in malformed {
        let mut conn = Connection::new("secret".to_string());
        let out = conn.step(ClientEvent::Text(frame.to_string()));
        assert_eq!(out.len(), 2, "frame: {frame}");
        assert_eq!(
            text_of(&out[0]),
            Some(
                "{\"type\":\"auth_response\",\"status\":\"error\",\"message\":\"Authentication required\"}"
            ),
            "frame: {frame}"
        );
        assert!(matches!(out[1], OutFrame::Close), "frame: {frame}");
        assert!(conn.is_closed(), "frame: {frame}");
    }
}

#[test]
fn disconnect_before_auth_closes_silently() {
    let mut conn = Connection::new("secret".to_string());
    let out = conn.step(ClientEvent::Disconnect);
    assert!(out.is_empty());
    assert!(conn.is_closed());
}

#[test]
fn non_text_first_frame_closes_silently() {
    let mut conn = Connection::new("secret".to_string());
    let out = conn.step(ClientEvent::Other);
    assert!(out.is_empty());
    assert!(conn.is_closed());
}

#[test]
fn every_text_frame_is_answered_healthy() {
    let mut conn = Connection::new("secret".to_string());
    conn.step(ClientEvent::Text("{\"type\":\"auth\",\"key\":\"secret\"}".to_string()));
    assert!(conn.is_authenticated());
    let probes = ["ping", "", "{\"type\":\"auth\",\"key\":\"secret\"}", "Healthy", "日本語"];
    for p in probes {
        let out = conn.step(ClientEvent::Text(p.to_string()));
        assert_eq!(out.len(), 1, "probe: {p}");
        assert_eq!(text_of(&out[0]), Some("Healthy"), "probe: {p}");
        assert!(conn.is_authenticated());
    }
}

#[test]
fn non_text_frames_are_ignored_when_authenticated() {
    let mut conn = Connection::new("secret".to_string());
    conn.step(ClientEvent::Text("{\"type\":\"auth\",\"key\":\"secret\"}".to_string()));
    let out = conn.step(ClientEvent::Other);
    assert!(out.is_empty());
    assert!(conn.is_authenticated());
}

#[test]
fn disconnect_tears_down_and_stays_closed() {
    let mut conn = Connection::new("secret".to_string());
    conn.step(ClientEvent::Text("{\"type\":\"auth\",\"key\":\"secret\"}".to_string()));
    let out = conn.step(ClientEvent::Disconnect);
    assert!(out.is_empty());
    assert!(conn.is_closed());
    // Closed is terminal: nothing more is ever sent.
    let out = conn.step(ClientEvent::Text("ping".to_string()));
    assert!(out.is_empty());
    assert!(conn.is_closed());
}
