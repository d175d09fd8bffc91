//! Roster: a session's local view of the other currently-visible users.
//!
//! Receivers of `UpdateEvent`s keep one entry per username. An event fully
//! replaces the entry it addresses (last-write-wins, no per-field merging);
//! an event with `logout` set removes the entry. The roster's mathematical
//! view is a map from username to presence.

use crate::session::{UpdateEvent, UpdateEventView, Vec2i};
use vstd::prelude::*;

verus! {

/// What a roster remembers about one other user.
pub ghost struct PresenceView {
    pub pos: Vec2i,
    pub speed: Vec2i,
    pub location: Seq<char>,
}

/// Mathematical view of a `RosterEntry`.
pub ghost struct RosterEntryView {
    pub username: Seq<char>,
    pub presence: PresenceView,
}

/// One visible user, as kept by the roster.
#[derive(Debug)]
pub struct RosterEntry {
    pub username: String,
    pub pos: Vec2i,
    pub speed: Vec2i,
    pub location: String,
}

impl View for RosterEntry {
    type V = RosterEntryView;

    open spec fn view(&self) -> RosterEntryView {
        RosterEntryView {
            username: self.username@,
            presence: PresenceView { pos: self.pos, speed: self.speed, location: self.location@ },
        }
    }
}

/// The presence carried by one update event.
pub open spec fn presence_of(ev: UpdateEventView) -> PresenceView {
    PresenceView { pos: ev.pos, speed: ev.speed, location: ev.location }
}

/// The map described by a sequence of entries, later entries winning.
spec fn entries_map(s: Seq<RosterEntryView>) -> Map<Seq<char>, PresenceView>
    decreases s.len(),
{
    if s.len() == 0 {
        Map::empty()
    } else {
        entries_map(s.drop_last()).insert(s.last().username, s.last().presence)
    }
}

/// A session's roster of the other users it currently sees.
#[derive(Debug)]
pub struct Roster {
    entries: Vec<RosterEntry>,
}

impl View for Roster {
    type V = Map<Seq<char>, PresenceView>;

    closed spec fn view(&self) -> Map<Seq<char>, PresenceView> {
        entries_map(self.entries@.map_values(|e: RosterEntry| e@))
    }
}

/// `m` after one event: the event's username is removed on logout, and
/// otherwise bound to exactly the presence the event carries.
pub open spec fn event_applied(
    m: Map<Seq<char>, PresenceView>,
    ev: UpdateEventView,
) -> Map<Seq<char>, PresenceView> {
    if ev.logout {
        m.remove(ev.username)
    } else {
        m.insert(ev.username, presence_of(ev))
    }
}

/// `m` after a whole drain cycle's events, in delivery order.
pub open spec fn events_applied(
    m: Map<Seq<char>, PresenceView>,
    evs: Seq<UpdateEventView>,
) -> Map<Seq<char>, PresenceView>
    decreases evs.len(),
{
    if evs.len() == 0 {
        m
    } else {
        event_applied(events_applied(m, evs.drop_last()), evs.last())
    }
}

impl Roster {
    /// No two entries name the same user.
    pub closed spec fn wf(&self) -> bool {
        forall|i: int, j: int|
            0 <= i < j < self.entries@.len() ==> self.entries@[i].username@
                != self.entries@[j].username@
    }

    /// An empty roster: nobody else is visible yet.
    pub fn new() -> (r: Roster)
        ensures
            r.wf(),
            r@ == Map::<Seq<char>, PresenceView>::empty(),
    {
        Roster { entries: Vec::new() }
    }

    /// The index of the entry for `name`, if one exists.
    fn find(&self, name: &str) -> (r: Option<usize>)
        ensures
            r matches Some(i) ==> i < self.entries@.len() && self.entries@[i as int].username@
                == name@,
            r is None ==> forall|i: int|
                0 <= i < self.entries@.len() ==> self.entries@[i].username@ != name@,
    {
        let mut i: usize = 0;
        while i < self.entries.len()
            invariant
                i <= self.entries@.len(),
                forall|j: int| 0 <= j < i ==> self.entries@[j].username@ != name@,
            decreases self.entries@.len() - i,
        {
            if self.entries[i].username.as_str().eq(name) {
                return Some(i);
            }
            i = i + 1;
        }
        None
    }

    /// Whether `name` is currently visible.
    pub fn contains_user(&self, name: &str) -> (r: bool)
        requires
            self.wf(),
        ensures
            r == self@.contains_key(name@),
    {
        let found = self.find(name);
        proof {
            let s = self.entries@.map_values(|e: RosterEntry| e@);
            match found {
                Some(i) => lemma_entries_map_present(s, i as int),
                None => lemma_entries_map_absent(s, name@),
            }
        }
        found.is_some()
    }

    /// The entry kept for `name`, if any.
    pub fn lookup(&self, name: &str) -> (r: Option<&RosterEntry>)
        requires
            self.wf(),
        ensures
            r matches Some(e) ==> self@.contains_key(name@) && e@.username == name@
                && e@.presence == self@[name@],
            r is None ==> !self@.contains_key(name@),
    {
        let found = self.find(name);
        proof {
            let s = self.entries@.map_values(|e: RosterEntry| e@);
            match found {
                Some(i) => lemma_entries_map_present(s, i as int),
                None => lemma_entries_map_absent(s, name@),
            }
        }
        match found {
            Some(i) => Some(&self.entries[i]),
            None => None,
        }
    }

    /// Applies one inbound event: removes the entry on logout, otherwise
    /// replaces (or creates) it with exactly the presence the event carries.
    pub fn apply_event(&mut self, ev: &UpdateEvent)
        requires
            old(self).wf(),
        ensures
            final(self).wf(),
            final(self)@ == event_applied(old(self)@, ev@),
    {
        let ghost s = self.entries@.map_values(|e: RosterEntry| e@);
        let found = self.find(&ev.username);
        if ev.logout {
            match found {
                Some(i) => {
                    self.entries.remove(i);
                    proof {
                        assert(self.entries@.map_values(|e: RosterEntry| e@) =~= s.remove(i as int));
                        lemma_entries_map_remove(s, i as int);
                    }
                },
                None => {
                    proof {
                        lemma_entries_map_absent(s, ev.username@);
                        assert(self@ =~= old(self)@.remove(ev.username@));
                    }
                },
            }
        } else {
            let entry = RosterEntry {
                username: ev.username.clone(),
                pos: ev.pos,
                speed: ev.speed,
                location: ev.location.clone(),
            };
            let ghost ev_entry = entry@;
            match found {
                Some(i) => {
                    self.entries.set(i, entry);
                    proof {
                        assert(self.entries@.map_values(|e: RosterEntry| e@) =~= s.update(
                            i as int,
                            ev_entry,
                        ));
                        lemma_entries_map_update(s, i as int, ev_entry);
                    }
                },
                None => {
                    self.entries.push(entry);
                    proof {
                        assert(self.entries@.map_values(|e: RosterEntry| e@) =~= s.push(ev_entry));
                        assert(s.push(ev_entry).drop_last() =~= s);
                    }
                },
            }
        }
    }

    /// Applies a whole drain cycle's events, in delivery order.
    pub fn apply_events(&mut self, evs: &Vec<UpdateEvent>)
        requires
            old(self).wf(),
        ensures
            final(self).wf(),
            final(self)@ == events_applied(old(self)@, evs@.map_values(|e: UpdateEvent| e@)),
    {
        let ghost all = evs@.map_values(|e: UpdateEvent| e@);
        let mut i: usize = 0;
        while i < evs.len()
            invariant
                old(self).wf() ==> self.wf(),
                i <= evs@.len(),
                all == evs@.map_values(|e: UpdateEvent| e@),
                old(self).wf(),
                self@ == events_applied(old(self)@, all.subrange(0, i as int)),
            decreases evs@.len() - i,
        {
            self.apply_event(&evs[i]);
            proof {
                assert(all.subrange(0, i as int + 1).drop_last() =~= all.subrange(0, i as int));
                assert(all.subrange(0, i as int + 1).last() == all[i as int]);
            }
            i = i + 1;
        }
        proof {
            assert(all.subrange(0, evs@.len() as int) =~= all);
        }
    }
}

/// When entry `i` names a user no other entry names, the roster map binds
/// that user to entry `i`'s presence.
proof fn lemma_entries_map_present(s: Seq<RosterEntryView>, i: int)
    requires
        0 <= i < s.len(),
        forall|j: int| 0 <= j < s.len() && j != i ==> s[j].username != s[i].username,
    ensures
        entries_map(s).contains_key(s[i].username),
        entries_map(s)[s[i].username] == s[i].presence,
    decreases s.len(),
{
    if i < s.len() - 1 {
        assert(s.drop_last()[i] == s[i]);
        lemma_entries_map_present(s.drop_last(), i);
    }
}

/// A user no entry names is not in the roster map.
proof fn lemma_entries_map_absent(s: Seq<RosterEntryView>, name: Seq<char>)
    requires
        forall|j: int| 0 <= j < s.len() ==> s[j].username != name,
    ensures
        !entries_map(s).contains_key(name),
    decreases s.len(),
{
    if s.len() > 0 {
        lemma_entries_map_absent(s.drop_last(), name);
    }
}

/// Removing the one entry that names a user removes exactly that user from
/// the roster map.
proof fn lemma_entries_map_remove(s: Seq<RosterEntryView>, i: int)
    requires
        0 <= i < s.len(),
        forall|a: int, b: int| 0 <= a < b < s.len() ==> s[a].username != s[b].username,
    ensures
        entries_map(s.remove(i)) == entries_map(s).remove(s[i].username),
    decreases s.len(),
{
    let name = s[i].username;
    if i == s.len() - 1 {
        assert(s.remove(i) =~= s.drop_last());
        assert forall|j: int| 0 <= j < s.drop_last().len() implies s.drop_last()[j].username
            != name by {
            assert(s.drop_last()[j] == s[j]);
        }
        lemma_entries_map_absent(s.drop_last(), name);
        assert(entries_map(s.drop_last()) =~= entries_map(s.drop_last()).insert(
            name,
            s[i].presence,
        ).remove(name));
    } else {
        assert(s.remove(i).drop_last() =~= s.drop_last().remove(i));
        assert(s.remove(i).last() == s.last());
        lemma_entries_map_remove(s.drop_last(), i);
        assert(entries_map(s.drop_last().remove(i)).insert(s.last().username, s.last().presence)
            =~= entries_map(s.drop_last()).insert(s.last().username, s.last().presence).remove(
            name,
        ));
    }
}

/// Overwriting the one entry that names a user rebinds exactly that user in
/// the roster map.
proof fn lemma_entries_map_update(s: Seq<RosterEntryView>, i: int, e: RosterEntryView)
    requires
        0 <= i < s.len(),
        e.username == s[i].username,
        forall|a: int, b: int| 0 <= a < b < s.len() ==> s[a].username != s[b].username,
    ensures
        entries_map(s.update(i, e)) == entries_map(s).insert(e.username, e.presence),
    decreases s.len(),
{
    let name = s[i].username;
    if i == s.len() - 1 {
        assert(s.update(i, e).drop_last() =~= s.drop_last());
        assert(s.update(i, e).last() == e);
        assert(entries_map(s.drop_last()).insert(name, e.presence) =~= entries_map(
            s.drop_last(),
        ).insert(name, s[i].presence).insert(name, e.presence));
    } else {
        assert(s.update(i, e).drop_last() =~= s.drop_last().update(i, e));
        assert(s.update(i, e).last() == s.last());
        lemma_entries_map_update(s.drop_last(), i, e);
        assert(entries_map(s.drop_last()).insert(name, e.presence).insert(
            s.last().username,
            s.last().presence,
        ) =~= entries_map(s.drop_last()).insert(s.last().username, s.last().presence).insert(
            name,
            e.presence,
        ));
    }
}

/// After a drain cycle whose events carry a logout for one user, with
/// no later event re-announcing that user, the roster no longer contains
/// `name` — whatever roster it started from.
pub proof fn lemma_logout_removes_user(
    m: Map<Seq<char>, PresenceView>,
    evs: Seq<UpdateEventView>,
    i: int,
)
    requires
        0 <= i < evs.len(),
        evs[i].logout,
        forall|j: int| i < j < evs.len() ==> evs[j].username != evs[i].username,
    ensures
        !events_applied(m, evs).contains_key(evs[i].username),
    decreases evs.len(),
{
    if i == evs.len() - 1 {
    } else {
        assert(evs.drop_last()[i] == evs[i]);
        assert forall|j: int| i < j < evs.drop_last().len() implies evs.drop_last()[j].username
            != evs.drop_last()[i].username by {
            assert(evs.drop_last()[j] == evs[j]);
        }
        lemma_logout_removes_user(m, evs.drop_last(), i);
    }
}

} // verus!
