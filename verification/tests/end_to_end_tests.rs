//! The whole path from the authentication handshake to a forwarded broker
//! publication, driven as the transport layer would drive it.

use bridge::channel::{BroadcastChannel, RecvOutcome};
use bridge::connection::Connection;
use bridge::frames::encode_bridge_message;
use bridge::listener::on_broker_event;
use bridge::messages::{BrokerEvent, ClientEvent, OutFrame};

#[test]
fn handshake_then_forwarded_publication() {
    // The client authenticates against the configured secret.
    let mut conn = Connection::new("secret".to_string());
    let out = conn.step(ClientEvent::Text("{\"type\":\"auth\",\"key\":\"secret\"}".to_string()));
    let mut texts = out.iter().map(|f| match f {
        OutFrame::Text(s) => s.as_str(),
        OutFrame::Close => panic!("no close frame belongs in a successful handshake"),
    });
    assert_eq!(
        texts.next(),
        Some(
            "{\"type\":\"auth_response\",\"status\":\"success\",\"message\":\"Authenticated successfully\"}"
        )
    );
    assert_eq!(texts.next(), Some("Hello from the other side"));
    assert_eq!(texts.next(), None);
    assert!(conn.is_authenticated());

    // The forward task subscribes; the broker then publishes on a matching topic.
    let mut chan = BroadcastChannel::new();
    let mut sub = chan.subscribe();
    let backoff = on_broker_event(
        &mut chan,
        BrokerEvent::Publication {
            topic: "classroom/1/telemetry".to_string(),
            payload: "{\"x\":1}".to_string(),
        },
    );
    assert!(!backoff);

    // The client receives the publication framed for the wire.
    match sub.recv(&chan) {
        RecvOutcome::Message(m) => {
            assert_eq!(
                encode_bridge_message(&m),
                "{\"type\":\"mqtt\",\"topic\":\"classroom/1/telemetry\",\"payload\":{\"x\":1}}"
            );
        }
        _ => panic!("the subscribed connection must observe the publication"),
    }
}
