//! Session state model: the data carried between client and server.
//!
//! A `ClientState` is the full snapshot of one client's server-visible state,
//! delivered once after authentication. An `UpdateEvent` is the incremental
//! change a session broadcasts to every other session; applying one replaces,
//! never merges, the movement fields it carries. `ClientAuth` is the
//! credential message a client sends first, and `UserStore` is the persisted
//! record wrapping a state together with its credential hash.
//!
//! Each executable type has a mathematical view (`@`) that the contracts of
//! the whole crate are stated over.

use vstd::prelude::*;

verus! {

/// Relies on `str`'s `PartialEq`: two string slices compare equal exactly
/// when they hold the same characters.
pub assume_specification[ <str as PartialEq>::eq ](a: &str, b: &str) -> (r: bool)
    ensures
        r == (a@ == b@),
;

/// A 2-D vector in integer world units. The presentation layer owns the
/// conversion to whatever units it renders in; the protocol only transports
/// these values.
#[derive(Debug, Clone, Copy, PartialEq, Eq, Structural)]
pub struct Vec2i {
    pub x: i32,
    pub y: i32,
}

impl Vec2i {
    /// The origin, used as the spawn position of a fresh session.
    pub fn origin() -> (r: Vec2i)
        ensures
            r == (Vec2i { x: 0, y: 0 }),
    {
        Vec2i { x: 0, y: 0 }
    }
}

/// Mathematical view of a `ClientState`.
pub ghost struct ClientStateView {
    pub username: Seq<char>,
    pub authenticated: bool,
    pub pos: Vec2i,
    pub speed: Vec2i,
    pub location: Seq<char>,
    pub current_quest_id: u16,
    pub current_questline_id: u16,
    pub dialog_offset: u16,
    pub complete_quest_ids: Seq<u16>,
}

/// Full snapshot of one client's server-visible state.
#[derive(Debug)]
pub struct ClientState {
    /// Stable identity, unique per session, assigned at authentication.
    pub username: String,
    /// False only on a credential mismatch; the state is still delivered so
    /// the client can show an error instead of silently dropping.
    pub authenticated: bool,
    /// Client-authoritative position.
    pub pos: Vec2i,
    /// Client-authoritative velocity.
    pub speed: Vec2i,
    /// Identifier of the current map or room.
    pub location: String,
    /// Progress marker, interpreted by the presentation layer only.
    pub current_quest_id: u16,
    /// Progress marker, interpreted by the presentation layer only.
    pub current_questline_id: u16,
    /// Progress marker, interpreted by the presentation layer only.
    pub dialog_offset: u16,
    /// Progress markers, interpreted by the presentation layer only.
    pub complete_quest_ids: Vec<u16>,
}

impl View for ClientState {
    type V = ClientStateView;

    open spec fn view(&self) -> ClientStateView {
        ClientStateView {
            username: self.username@,
            authenticated: self.authenticated,
            pos: self.pos,
            speed: self.speed,
            location: self.location@,
            current_quest_id: self.current_quest_id,
            current_questline_id: self.current_questline_id,
            dialog_offset: self.dialog_offset,
            complete_quest_ids: self.complete_quest_ids@,
        }
    }
}

/// The view of the default state of a freshly provisioned user: at the
/// origin, outside, with no progress.
pub open spec fn fresh_state(username: Seq<char>, authenticated: bool) -> ClientStateView {
    ClientStateView {
        username,
        authenticated,
        pos: Vec2i { x: 0, y: 0 },
        speed: Vec2i { x: 0, y: 0 },
        location: "outside"@,
        current_quest_id: 0,
        current_questline_id: 0,
        dialog_offset: 0,
        complete_quest_ids: Seq::<u16>::empty(),
    }
}

/// `before` after one inbound update, last-write-wins: the movement fields
/// the event carries fully replace the old ones; every other field is kept.
pub open spec fn applied_update(before: ClientStateView, update: UpdateEventView) -> ClientStateView {
    ClientStateView { pos: update.pos, speed: update.speed, location: update.location, ..before }
}

impl ClientState {
    /// The default state of a freshly provisioned user: authenticated, at
    /// the origin, outside, with no progress.
    pub fn new(uname: &str) -> (r: ClientState)
        ensures
            r@ == fresh_state(uname@, true),
    {
        ClientState {
            username: uname.to_owned(),
            authenticated: true,
            pos: Vec2i::origin(),
            speed: Vec2i::origin(),
            location: "outside".to_owned(),
            current_quest_id: 0,
            current_questline_id: 0,
            dialog_offset: 0,
            complete_quest_ids: Vec::new(),
        }
    }

    /// An independently owned copy of the state.
    pub fn snapshot(&self) -> (r: ClientState)
        ensures
            r@ == self@,
    {
        let complete = copy_ids(&self.complete_quest_ids);
        ClientState {
            username: self.username.clone(),
            authenticated: self.authenticated,
            pos: self.pos,
            speed: self.speed,
            location: self.location.clone(),
            current_quest_id: self.current_quest_id,
            current_questline_id: self.current_questline_id,
            dialog_offset: self.dialog_offset,
            complete_quest_ids: complete,
        }
    }

    /// Applies one inbound update to this state.
    pub fn apply_update(&mut self, update: &UpdateEvent)
        ensures
            final(self)@ == applied_update(old(self)@, update@),
    {
        self.pos = update.pos;
        self.speed = update.speed;
        self.location = update.location.clone();
    }
}

/// A copy, equal in view, of a vector of quest identifiers.
fn copy_ids(ids: &Vec<u16>) -> (r: Vec<u16>)
    ensures
        r@ == ids@,
{
    let mut r: Vec<u16> = Vec::new();
    let mut i: usize = 0;
    while i < ids.len()
        invariant
            i <= ids@.len(),
            r@ == ids@.subrange(0, i as int),
        decreases ids@.len() - i,
    {
        r.push(ids[i]);
        assert(r@ =~= ids@.subrange(0, i as int + 1));
        i = i + 1;
    }
    proof {
        assert(r@ =~= ids@);
    }
    r
}

/// Mathematical view of a `UserStore`.
pub ghost struct UserStoreView {
    pub username: Seq<char>,
    pub pass_hash: u64,
    pub state: ClientStateView,
}

/// The persisted record of one user: credential hash plus last saved state.
#[derive(Debug)]
pub struct UserStore {
    pub username: String,
    pub pass_hash: u64,
    pub state: ClientState,
}

impl View for UserStore {
    type V = UserStoreView;

    open spec fn view(&self) -> UserStoreView {
        UserStoreView {
            username: self.username@,
            pass_hash: self.pass_hash,
            state: self.state@,
        }
    }
}

/// The view of a fresh record for a user seen for the first time.
pub open spec fn fresh_store(
    username: Seq<char>,
    pass_hash: u64,
    authenticated: bool,
) -> UserStoreView {
    UserStoreView { username, pass_hash, state: fresh_state(username, authenticated) }
}

impl UserStore {
    /// A fresh record for a user seen for the first time, wrapping the
    /// default state for that username.
    pub fn new(username: &str, pass_hash: u64) -> (r: UserStore)
        ensures
            r@ == fresh_store(username@, pass_hash, true),
    {
        UserStore { username: username.to_owned(), pass_hash, state: ClientState::new(username) }
    }

    /// An independently owned copy of the record.
    pub fn snapshot(&self) -> (r: UserStore)
        ensures
            r@ == self@,
    {
        UserStore {
            username: self.username.clone(),
            pass_hash: self.pass_hash,
            state: self.state.snapshot(),
        }
    }
}

/// Mathematical view of a `ClientAuth`.
pub ghost struct ClientAuthView {
    pub username: Seq<char>,
    pub pass_hash: u64,
}

/// The credential message a client sends in its first frame.
#[derive(Debug)]
pub struct ClientAuth {
    pub username: String,
    pub pass_hash: u64,
}

impl View for ClientAuth {
    type V = ClientAuthView;

    open spec fn view(&self) -> ClientAuthView {
        ClientAuthView { username: self.username@, pass_hash: self.pass_hash }
    }
}

/// Mathematical view of an `UpdateEvent`.
pub ghost struct UpdateEventView {
    pub username: Seq<char>,
    pub pos: Vec2i,
    pub speed: Vec2i,
    pub location: Seq<char>,
    pub logout: bool,
}

/// One state-changing action, broadcast to every other connected session.
#[derive(Debug)]
pub struct UpdateEvent {
    /// Routing key: receivers compare it against their own identity to skip
    /// self-echo, and against their roster to replace or remove an entry.
    pub username: String,
    pub pos: Vec2i,
    pub speed: Vec2i,
    pub location: String,
    /// True marks this as the session's final event; receivers drop the
    /// username from their roster.
    pub logout: bool,
}

impl View for UpdateEvent {
    type V = UpdateEventView;

    open spec fn view(&self) -> UpdateEventView {
        UpdateEventView {
            username: self.username@,
            pos: self.pos,
            speed: self.speed,
            location: self.location@,
            logout: self.logout,
        }
    }
}

impl UpdateEvent {
    /// An independently owned copy of the event.
    pub fn snapshot(&self) -> (r: UpdateEvent)
        ensures
            r@ == self@,
    {
        UpdateEvent {
            username: self.username.clone(),
            pos: self.pos,
            speed: self.speed,
            location: self.location.clone(),
            logout: self.logout,
        }
    }
}

} // verus!
