//! The broker listener's decisions: which session events become messages on
//! the broadcast channel, and when the loop backs off.

use vstd::prelude::*;
use crate::channel::BroadcastChannel;
use crate::json::json_wf;
use crate::messages::{BridgeMessage, BridgeMessageView, BrokerEvent};

verus! {

/// Decodes one broker publication: accepted exactly when the payload text is
/// well-formed JSON, and then carried through unmodified. A malformed payload
/// yields nothing at all.
pub fn decode_publication(topic: String, payload: String) -> (r: Option<BridgeMessage>)
    ensures
        r is Some <==> json_wf(payload@),
        r matches Some(m) ==> m@ == (BridgeMessageView { topic: topic@, payload: payload@ }),
{
    if crate::json::is_well_formed_json(payload.as_str()) {
        Some(BridgeMessage { topic, payload })
    } else {
        None
    }
}

/// One step of the broker listener loop: a publication with a well-formed
/// JSON payload is published to the channel, a malformed one is dropped
/// without a trace, other session events are ignored, and a session failure
/// asks the caller to back off before polling again. No event but a valid
/// publication changes the channel, so a malformed payload never disrupts the
/// delivery of the messages around it.
pub fn on_broker_event(chan: &mut BroadcastChannel, ev: BrokerEvent) -> (backoff: bool)
    requires
        old(chan).wf(),
        old(chan).log().len() < u64::MAX,
    ensures
        final(chan).wf(),
        match ev {
            BrokerEvent::Publication { topic, payload } => {
                &&& !backoff
                &&& json_wf(payload@) ==> final(chan).log() == old(chan).log().push(
                    (BridgeMessageView { topic: topic@, payload: payload@ }),
                )
                &&& !json_wf(payload@) ==> final(chan).log() == old(chan).log()
            },
            BrokerEvent::Other => !backoff && final(chan).log() == old(chan).log(),
            BrokerEvent::Failure => backoff && final(chan).log() == old(chan).log(),
        },
{
    match ev {
        BrokerEvent::Publication { topic, payload } => {
            match decode_publication(topic, payload) {
                Some(m) => chan.publish(m),
                None => {},
            }
            false
        },
        BrokerEvent::Other => false,
        BrokerEvent::Failure => true,
    }
}

} // verus!
