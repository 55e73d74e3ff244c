//! The per-connection handshake and liveness state machine.
//!
//! A connection starts waiting for its authentication request, the first text
//! frame. A request whose key matches the configured secret is answered with
//! the success response and the welcome frame and the connection becomes
//! authenticated; a non-matching key or any other first frame is answered
//! with the fitting error response and a close frame. Once authenticated,
//! every further text frame — whatever it holds — is answered with the
//! heartbeat reply, until the client disconnects.

use vstd::prelude::*;
use crate::frames::{
    auth_invalid_key_frame, auth_invalid_key_text, auth_required_frame, auth_required_text,
    auth_success_frame, auth_success_text, heartbeat_frame, heartbeat_text, welcome_frame,
    welcome_text,
};
use crate::json::{json_str_field, json_string_field};
use crate::messages::{ClientEvent, OutFrame};

verus! {

/// Lifecycle of one client connection.
#[derive(Clone, Copy, Debug)]
pub enum ConnectionState {
    /// Waiting for the first frame, which must be the authentication request.
    AwaitingAuth,
    /// The handshake succeeded: broker messages are forwarded and every text
    /// frame is answered with the heartbeat reply.
    Authenticated,
    /// Terminal: nothing more is read or sent on this connection.
    Closed,
}

/// The first frame is an authentication request whose key equals the secret.
pub open spec fn auth_granted(frame: Seq<char>, secret: Seq<char>) -> bool {
    &&& json_str_field(frame, "type"@) == Some("auth"@)
    &&& json_str_field(frame, "key"@) == Some(secret)
}

/// The first frame is an authentication request, but its key differs from the
/// secret.
pub open spec fn auth_key_mismatch(frame: Seq<char>, secret: Seq<char>) -> bool {
    &&& json_str_field(frame, "type"@) == Some("auth"@)
    &&& json_str_field(frame, "key"@) is Some
    &&& json_str_field(frame, "key"@) != Some(secret)
}

/// The first frame is not a well-formed authentication request: it does not
/// parse as a JSON object whose `type` field is the string `auth` and whose
/// `key` field is a string.
pub open spec fn auth_malformed(frame: Seq<char>) -> bool {
    ||| json_str_field(frame, "type"@) != Some("auth"@)
    ||| json_str_field(frame, "key"@) is None
}

/// Law: every first frame meets exactly one of the three authentication
/// outcomes — granted, key mismatch, or malformed.
pub proof fn lemma_auth_outcomes_partition(frame: Seq<char>, secret: Seq<char>)
    ensures
        auth_granted(frame, secret) || auth_key_mismatch(frame, secret) || auth_malformed(frame),
        auth_granted(frame, secret) ==> !auth_key_mismatch(frame, secret) && !auth_malformed(
            frame),
        auth_key_mismatch(frame, secret) ==> !auth_granted(frame, secret) && !auth_malformed(
            frame),
        auth_malformed(frame) ==> !auth_granted(frame, secret) && !auth_key_mismatch(
            frame,
            secret,
        ),
{
}

/// The handler of one client connection.
pub struct Connection {
    secret: String,
    state: ConnectionState,
}

/// Mathematical image of a `Connection`.
pub ghost struct ConnectionView {
    pub secret: Seq<char>,
    pub state: ConnectionState,
}

impl View for Connection {
    type V = ConnectionView;

    closed spec fn view(&self) -> ConnectionView {
        ConnectionView { secret: self.secret@, state: self.state }
    }
}

impl Connection {
    /// A handler for one freshly accepted connection, holding its copy of the
    /// shared secret and awaiting the authentication request.
    pub fn new(secret: String) -> (c: Self)
        ensures
            c@.state is AwaitingAuth,
            c@.secret == secret@,
    {
        Connection { secret, state: ConnectionState::AwaitingAuth }
    }

    /// Whether the handshake has succeeded, so the forward task should run.
    pub fn is_authenticated(&self) -> (r: bool)
        ensures
            r == (self@.state is Authenticated),
    {
        match self.state {
            ConnectionState::Authenticated => true,
            _ => false,
        }
    }

    /// Whether the connection is torn down.
    pub fn is_closed(&self) -> (r: bool)
        ensures
            r == (self@.state is Closed),
    {
        match self.state {
            ConnectionState::Closed => true,
            _ => false,
        }
    }

    /// Reacts to one event read from the client; the returned frames are sent
    /// to the client in order, a missing text meaning a close frame.
    ///
    /// Awaiting authentication, a text frame decides the handshake: a granted
    /// request is answered with the success response and then the welcome
    /// frame (the transport may pause between the two) and the connection
    /// stays open; a key mismatch or a malformed request is answered with the
    /// fitting error response and a close frame; anything but a text frame
    /// closes the connection silently. Once authenticated, every text frame —
    /// whatever its content — is answered with the heartbeat reply, a
    /// disconnect closes the connection, and any other frame is ignored.
    pub fn step(&mut self, ev: ClientEvent) -> (out: Vec<OutFrame>)
        ensures
            final(self)@.secret == old(self)@.secret,
            old(self)@.state is Closed ==> final(self)@.state is Closed && out@.len() == 0,
            old(self)@.state is AwaitingAuth ==> match ev {
                ClientEvent::Text(t) => {
                    if auth_granted(t@, old(self)@.secret) {
                        &&& final(self)@.state is Authenticated
                        &&& out@.len() == 2
                        &&& out@[0]@.text == Some(auth_success_text())
                        &&& out@[1]@.text == Some(welcome_text())
                    } else if auth_key_mismatch(t@, old(self)@.secret) {
                        &&& final(self)@.state is Closed
                        &&& out@.len() == 2
                        &&& out@[0]@.text == Some(auth_invalid_key_text())
                        &&& out@[1]@.text is None
                    } else {
                        &&& final(self)@.state is Closed
                        &&& out@.len() == 2
                        &&& out@[0]@.text == Some(auth_required_text())
                        &&& out@[1]@.text is None
                    }
                },
                ClientEvent::Disconnect => final(self)@.state is Closed && out@.len() == 0,
                ClientEvent::Other => final(self)@.state is Closed && out@.len() == 0,
            },
            old(self)@.state is Authenticated ==> match ev {
                ClientEvent::Text(_) => {
                    &&& final(self)@.state is Authenticated
                    &&& out@.len() == 1
                    &&& out@[0]@.text == Some(heartbeat_text())
                },
                ClientEvent::Disconnect => final(self)@.state is Closed && out@.len() == 0,
                ClientEvent::Other => final(self)@.state is Authenticated && out@.len() == 0,
            },
    {
        let mut out: Vec<OutFrame> = Vec::new();
        match self.state {
            ConnectionState::Closed => {},
            ConnectionState::AwaitingAuth => {
                match ev {
                    ClientEvent::Text(t) => {
                        let auth_word = ("auth").to_owned();
                        let is_auth_type = match json_string_field(t.as_str(), "type") {
                            Some(ty) => ty == auth_word,
                            None => false,
                        };
                        if is_auth_type {
                            match json_string_field(t.as_str(), "key") {
                                Some(k) => {
                                    if k == self.secret {
                                        self.state = ConnectionState::Authenticated;
                                        out.push(OutFrame::Text(auth_success_frame()));
                                        out.push(OutFrame::Text(welcome_frame()));
                                    } else {
                                        self.state = ConnectionState::Closed;
                                        out.push(OutFrame::Text(auth_invalid_key_frame()));
                                        out.push(OutFrame::Close);
                                    }
                                },
                                None => {
                                    self.state = ConnectionState::Closed;
                                    out.push(OutFrame::Text(auth_required_frame()));
                                    out.push(OutFrame::Close);
                                },
                            }
                        } else {
                            self.state = ConnectionState::Closed;
                            out.push(OutFrame::Text(auth_required_frame()));
                            out.push(OutFrame::Close);
                        }
                    },
                    ClientEvent::Disconnect => {
                        self.state = ConnectionState::Closed;
                    },
                    ClientEvent::Other => {
                        self.state = ConnectionState::Closed;
                    },
                }
            },
            ConnectionState::Authenticated => {
                match ev {
                    ClientEvent::Text(_) => {
                        out.push(OutFrame::Text(heartbeat_frame()));
                    },
                    ClientEvent::Disconnect => {
                        self.state = ConnectionState::Closed;
                    },
                    ClientEvent::Other => {},
                }
            },
        }
        out
    }
}

} // verus!
