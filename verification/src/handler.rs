//! Server session handler: the per-connection protocol, from the auth frame
//! to teardown, as a state machine over parsed messages.
//!
//! The embedding program owns the socket and the collaborators (frame I/O,
//! JSON conversion, the persistence store, the broadcast hub). It feeds each
//! connection's parsed messages to `SessionHandler::step` and carries out the
//! returned `HandlerAction`: deliver a state frame, publish an update to the
//! hub tagged with this session's identity, persist a record, close the
//! socket. Every decision — whom to accept, what to deliver, when to leave
//! the loop, what may ever reach persistence — is made and verified here.

use crate::session::{
    fresh_store, applied_update, ClientAuth, ClientAuthView, ClientState, UpdateEvent, UserStore,
    UserStoreView,
};
use vstd::prelude::*;

verus! {

/// The record a session continues with, given the credentials the client
/// sent and what the persistence store holds for that username: the stored
/// record when the credential hash matches, a fresh rejected record when it
/// does not, and a fresh provisioned record for a user never seen before.
pub open spec fn auth_store(auth: ClientAuthView, stored: Option<UserStoreView>) -> UserStoreView {
    match stored {
        Some(u) => {
            if u.pass_hash == auth.pass_hash {
                u
            } else {
                fresh_store(auth.username, auth.pass_hash, false)
            }
        },
        None => fresh_store(auth.username, auth.pass_hash, true),
    }
}

/// The view of an optional stored record.
pub open spec fn stored_view(stored: Option<UserStore>) -> Option<UserStoreView> {
    match stored {
        Some(u) => Some(u@),
        None => None,
    }
}

/// Decides the session record for freshly presented credentials, given the
/// record the persistence collaborator found for that username (`None` for a
/// user never seen before). A mismatching credential yields a fresh record
/// with `authenticated` false — still delivered, so the client can show an
/// error instead of a silent close.
pub fn session_for_auth(auth: &ClientAuth, stored: Option<UserStore>) -> (r: UserStore)
    ensures
        r@ == auth_store(auth@, stored_view(stored)),
{
    match stored {
        Some(user) => {
            if user.pass_hash == auth.pass_hash {
                user
            } else {
                let mut rejected = UserStore::new(&auth.username, auth.pass_hash);
                rejected.state.authenticated = false;
                rejected
            }
        },
        None => UserStore::new(&auth.username, auth.pass_hash),
    }
}

/// One parsed input to a session handler.
pub enum HandlerEvent {
    /// The connection's first frame: the parsed credentials paired with the
    /// record the persistence store holds for that username (`None` inside
    /// for a new user). The outer `None` means the frame never arrived or
    /// could not be parsed.
    AuthMessage(Option<(ClientAuth, Option<UserStore>)>),
    /// One well-formed update read during the steady-state loop.
    UpdateMessage(UpdateEvent),
    /// A read or write failure, or the peer closing the socket.
    ConnectionLost,
}

/// What the embedding program must carry out after one step.
pub struct HandlerAction {
    /// Serialize this state and send it as one frame.
    pub deliver: Option<ClientState>,
    /// Publish this event to the broadcast hub, tagged with this session's
    /// own identity.
    pub publish: Option<UpdateEvent>,
    /// Hand this record to the persistence collaborator.
    pub persist: Option<UserStore>,
    /// Close the socket; the handler is finished.
    pub close: bool,
}

/// True when the action asks for no delivery, no publish and no persistence.
pub open spec fn no_effects(a: HandlerAction) -> bool {
    &&& a.deliver is None
    &&& a.publish is None
    &&& a.persist is None
}

/// The per-connection session state machine.
pub enum SessionHandler {
    /// Waiting for the connection's first frame.
    AwaitingAuth,
    /// Authenticated; exchanging updates. The handler exclusively owns this
    /// connection's record for the rest of its lifetime.
    Streaming { store: UserStore },
    /// Torn down: nothing further happens on this connection.
    Done,
}

impl SessionHandler {
    /// A streaming handler only ever holds a record that authentication
    /// accepted.
    pub open spec fn wf(self) -> bool {
        self matches SessionHandler::Streaming { store } ==> store@.state.authenticated
    }

    /// A handler for a freshly accepted connection.
    pub fn new() -> (r: SessionHandler)
        ensures
            r is AwaitingAuth,
            r.wf(),
    {
        SessionHandler::AwaitingAuth
    }

    /// Advances the handler by one parsed input and says what to do next.
    ///
    /// Persistence is invoked at most on teardown of an authenticated
    /// session, and only ever with the record authentication established,
    /// updated by this session's own inbound events — never with a partial
    /// or rejected one.
    pub fn step(self, ev: HandlerEvent) -> (r: (SessionHandler, HandlerAction))
        requires
            self.wf(),
        ensures
            r.0.wf(),
            r.1.persist matches Some(p) ==> self matches SessionHandler::Streaming { store }
                && p@.state.authenticated,
            self is AwaitingAuth ==> match ev {
                HandlerEvent::AuthMessage(m) => match m {
                    Some((auth, stored)) => {
                        let u = auth_store(auth@, stored_view(stored));
                        &&& r.1.deliver matches Some(st) && st@ == u.state
                        &&& r.1.publish is None
                        &&& r.1.persist is None
                        &&& u.state.authenticated ==> (r.0 matches SessionHandler::Streaming {
                            store,
                        } && store@ == u && !r.1.close)
                        &&& !u.state.authenticated ==> (r.0 is Done && r.1.close)
                    },
                    None => r.0 is Done && no_effects(r.1) && r.1.close,
                },
                HandlerEvent::UpdateMessage(_) => r.0 is Done && no_effects(r.1) && r.1.close,
                HandlerEvent::ConnectionLost => r.0 is Done && no_effects(r.1) && r.1.close,
            },
            self matches SessionHandler::Streaming { store } ==> match ev {
                HandlerEvent::UpdateMessage(update) => {
                    let updated = UserStoreView {
                        state: applied_update(store@.state, update@),
                        ..store@
                    };
                    &&& r.1.deliver is None
                    &&& r.1.publish matches Some(p) && p@ == update@
                    &&& update@.logout ==> (r.0 is Done && (r.1.persist matches Some(ps) && ps@
                        == updated) && r.1.close)
                    &&& !update@.logout ==> (r.0 matches SessionHandler::Streaming { store: s2 }
                        && s2@ == updated && r.1.persist is None && !r.1.close)
                },
                HandlerEvent::ConnectionLost => {
                    &&& r.0 is Done
                    &&& r.1.deliver is None
                    &&& r.1.publish is None
                    &&& r.1.persist matches Some(ps) && ps@ == store@
                    &&& r.1.close
                },
                HandlerEvent::AuthMessage(_) => r.0 matches SessionHandler::Streaming { store: s2 }
                    && s2@ == store@ && no_effects(r.1) && !r.1.close,
            },
            self is Done ==> r.0 is Done && no_effects(r.1) && !r.1.close,
    {
        match self {
            SessionHandler::AwaitingAuth => match ev {
                HandlerEvent::AuthMessage(m) => match m {
                    Some((auth, stored)) => {
                        let user = session_for_auth(&auth, stored);
                        let state_copy = user.state.snapshot();
                        if user.state.authenticated {
                            (
                                SessionHandler::Streaming { store: user },
                                HandlerAction {
                                    deliver: Some(state_copy),
                                    publish: None,
                                    persist: None,
                                    close: false,
                                },
                            )
                        } else {
                            (
                                SessionHandler::Done,
                                HandlerAction {
                                    deliver: Some(state_copy),
                                    publish: None,
                                    persist: None,
                                    close: true,
                                },
                            )
                        }
                    },
                    None => (
                        SessionHandler::Done,
                        HandlerAction { deliver: None, publish: None, persist: None, close: true },
                    ),
                },
                HandlerEvent::UpdateMessage(_) => (
                    SessionHandler::Done,
                    HandlerAction { deliver: None, publish: None, persist: None, close: true },
                ),
                HandlerEvent::ConnectionLost => (
                    SessionHandler::Done,
                    HandlerAction { deliver: None, publish: None, persist: None, close: true },
                ),
            },
            SessionHandler::Streaming { mut store } => match ev {
                HandlerEvent::UpdateMessage(update) => {
                    store.state.apply_update(&update);
                    if update.logout {
                        (
                            SessionHandler::Done,
                            HandlerAction {
                                deliver: None,
                                publish: Some(update),
                                persist: Some(store),
                                close: true,
                            },
                        )
                    } else {
                        (
                            SessionHandler::Streaming { store },
                            HandlerAction {
                                deliver: None,
                                publish: Some(update),
                                persist: None,
                                close: false,
                            },
                        )
                    }
                },
                HandlerEvent::ConnectionLost => (
                    SessionHandler::Done,
                    HandlerAction {
                        deliver: None,
                        publish: None,
                        persist: Some(store),
                        close: true,
                    },
                ),
                HandlerEvent::AuthMessage(_) => (
                    SessionHandler::Streaming { store },
                    HandlerAction { deliver: None, publish: None, persist: None, close: false },
                ),
            },
            SessionHandler::Done => (
                SessionHandler::Done,
                HandlerAction { deliver: None, publish: None, persist: None, close: false },
            ),
        }
    }
}

} // verus!
