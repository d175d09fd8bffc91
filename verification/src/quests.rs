//! Quest and dialog data, as delivered to the presentation layer.
//!
//! The protocol transports quest progress markers verbatim; these types
//! describe the static quest content the client loads, and the two lookups
//! the presentation layer runs against it: finding a quest by its id and
//! finding the next questline after the current one.

use vstd::prelude::*;

verus! {

/// One tile of a sprite map.
#[derive(Debug)]
pub struct TileId {
    pub sprite_map: String,
    pub tile_id: u32,
}

/// Mathematical view of a `Quest`.
pub ghost struct QuestView {
    pub speaker: Seq<char>,
    pub dialog: Seq<char>,
    pub quest_id: Option<u16>,
    pub quest_name: Option<Seq<char>>,
    pub completion: Option<QuestCompletionView>,
}

/// Mathematical view of a `QuestCompletion`.
pub ghost struct QuestCompletionView {
    pub completion_type: Seq<char>,
    pub interact_object_id: Option<Seq<char>>,
}

/// The view of an optional owned string.
pub open spec fn opt_str_view(o: Option<String>) -> Option<Seq<char>> {
    match o {
        Some(s) => Some(s@),
        None => None,
    }
}

/// How a quest is completed.
#[derive(Debug)]
pub struct QuestCompletion {
    pub completion_type: String,
    pub interact_object_id: Option<String>,
}

impl View for QuestCompletion {
    type V = QuestCompletionView;

    open spec fn view(&self) -> QuestCompletionView {
        QuestCompletionView {
            completion_type: self.completion_type@,
            interact_object_id: opt_str_view(self.interact_object_id),
        }
    }
}

/// One step of dialog, optionally carrying a quest.
#[derive(Debug)]
pub struct Quest {
    pub speaker: String,
    pub dialog: String,
    pub quest_id: Option<u16>,
    pub quest_name: Option<String>,
    pub completion: Option<QuestCompletion>,
}

/// The view of an optional completion.
pub open spec fn opt_completion_view(o: Option<QuestCompletion>) -> Option<QuestCompletionView> {
    match o {
        Some(c) => Some(c@),
        None => None,
    }
}

impl View for Quest {
    type V = QuestView;

    open spec fn view(&self) -> QuestView {
        QuestView {
            speaker: self.speaker@,
            dialog: self.dialog@,
            quest_id: self.quest_id,
            quest_name: opt_str_view(self.quest_name),
            completion: opt_completion_view(self.completion),
        }
    }
}

/// Mathematical view of a `Questline`.
pub ghost struct QuestlineView {
    pub id: u16,
    pub quests: Seq<QuestView>,
}

/// An ordered run of quests under one id.
#[derive(Debug)]
pub struct Questline {
    pub id: u16,
    pub quests: Vec<Quest>,
}

impl View for Questline {
    type V = QuestlineView;

    open spec fn view(&self) -> QuestlineView {
        QuestlineView { id: self.id, quests: self.quests@.map_values(|q: Quest| q@) }
    }
}

/// The first quest in `qs` carrying the id `target`, if any.
pub open spec fn find_in_quests(qs: Seq<QuestView>, target: u16) -> Option<QuestView>
    decreases qs.len(),
{
    if qs.len() == 0 {
        None
    } else if qs.first().quest_id == Some(target) {
        Some(qs.first())
    } else {
        find_in_quests(qs.drop_first(), target)
    }
}

/// The first quest carrying the id `target` over all questlines, in order.
pub open spec fn find_quest(qls: Seq<QuestlineView>, target: u16) -> Option<QuestView>
    decreases qls.len(),
{
    if qls.len() == 0 {
        None
    } else {
        match find_in_quests(qls.first().quests, target) {
            Some(q) => Some(q),
            None => find_quest(qls.drop_first(), target),
        }
    }
}

/// An independently owned copy of an optional owned string.
fn copy_opt_string(o: &Option<String>) -> (r: Option<String>)
    ensures
        opt_str_view(r) == opt_str_view(*o),
{
    match o {
        Some(s) => Some(s.clone()),
        None => None,
    }
}

impl Quest {
    /// An independently owned copy of the quest.
    pub fn snapshot(&self) -> (r: Quest)
        ensures
            r@ == self@,
    {
        let completion = match &self.completion {
            Some(c) => Some(
                QuestCompletion {
                    completion_type: c.completion_type.clone(),
                    interact_object_id: copy_opt_string(&c.interact_object_id),
                },
            ),
            None => None,
        };
        Quest {
            speaker: self.speaker.clone(),
            dialog: self.dialog.clone(),
            quest_id: self.quest_id,
            quest_name: copy_opt_string(&self.quest_name),
            completion,
        }
    }
}

/// Looks a quest up by its id: the first quest over all questlines, in
/// order, whose `quest_id` is `Some(quest_id)`, or `None` when no quest
/// carries that id.
pub fn get_quest_data(quest_id: u16, questlines: &Vec<Questline>) -> (r: Option<Quest>)
    ensures
        match r {
            Some(q) => find_quest(
                questlines@.map_values(|ql: Questline| ql@),
                quest_id,
            ) == Some(q@),
            None => find_quest(questlines@.map_values(|ql: Questline| ql@), quest_id) is None,
        },
{
    let ghost all = questlines@.map_values(|ql: Questline| ql@);
    let mut i: usize = 0;
    proof {
        assert(all.subrange(0, all.len() as int) =~= all);
    }
    while i < questlines.len()
        invariant
            i <= all.len(),
            all == questlines@.map_values(|ql: Questline| ql@),
            all.len() == questlines@.len(),
            find_quest(all, quest_id) == find_quest(
                all.subrange(i as int, all.len() as int),
                quest_id,
            ),
        decreases all.len() - i,
    {
        let ghost qs = all[i as int].quests;
        let mut j: usize = 0;
        proof {
            assert(all[i as int] == questlines@[i as int]@);
            assert(qs.subrange(0, qs.len() as int) =~= qs);
        }
        while j < questlines[i].quests.len()
            invariant
                i < all.len(),
                all == questlines@.map_values(|ql: Questline| ql@),
                all.len() == questlines@.len(),
                qs == all[i as int].quests,
                j <= qs.len(),
                find_quest(all, quest_id) == find_quest(
                    all.subrange(i as int, all.len() as int),
                    quest_id,
                ),
                find_in_quests(qs, quest_id) == find_in_quests(
                    qs.subrange(j as int, qs.len() as int),
                    quest_id,
                ),
            decreases qs.len() - j,
        {
            proof {
                assert(all[i as int] == questlines@[i as int]@);
                assert(qs[j as int] == questlines@[i as int].quests@[j as int]@);
                assert(qs.subrange(j as int, qs.len() as int).first() == qs[j as int]);
            }
            let quest = &questlines[i].quests[j];
            let matched = match quest.quest_id {
                Some(id) => id == quest_id,
                None => false,
            };
            if matched {
                proof {
                    assert(all.subrange(i as int, all.len() as int).first() == all[i as int]);
                }
                return Some(quest.snapshot());
            }
            proof {
                assert(qs.subrange(j as int, qs.len() as int).drop_first() =~= qs.subrange(
                    j as int + 1,
                    qs.len() as int,
                ));
                assert(qs.subrange(j as int, qs.len() as int).first().quest_id != Some(quest_id));
            }
            j = j + 1;
        }
        proof {
            assert(qs.subrange(qs.len() as int, qs.len() as int) =~= Seq::<QuestView>::empty());
            assert(all.subrange(i as int, all.len() as int).first() == all[i as int]);
            assert(find_in_quests(all[i as int].quests, quest_id) is None);
            assert(all.subrange(i as int, all.len() as int).drop_first() =~= all.subrange(
                i as int + 1,
                all.len() as int,
            ));
        }
        i = i + 1;
    }
    proof {
        assert(all.subrange(all.len() as int, all.len() as int) =~= Seq::<QuestlineView>::empty());
    }
    None
}

/// The id of the questline that follows `current_questline`: the smallest
/// questline id strictly greater than it, or `u16::MAX` when none is.
pub fn get_next_questline_id(questlines: &Vec<Questline>, current_questline: u16) -> (r: u16)
    ensures
        forall|i: int|
            0 <= i < questlines@.len() && questlines@[i].id > current_questline ==> r
                <= questlines@[i].id,
        r == u16::MAX || (r > current_questline && exists|i: int|
            0 <= i < questlines@.len() && questlines@[i].id == r),
{
    let mut next_id: u16 = u16::MAX;
    let mut i: usize = 0;
    while i < questlines.len()
        invariant
            i <= questlines@.len(),
            forall|j: int|
                0 <= j < i && questlines@[j].id > current_questline ==> next_id
                    <= questlines@[j].id,
            next_id == u16::MAX || (next_id > current_questline && exists|j: int|
                0 <= j < i && questlines@[j].id == next_id),
        decreases questlines@.len() - i,
    {
        let id = questlines[i].id;
        if id > current_questline && id < next_id {
            next_id = id;
        }
        i = i + 1;
    }
    next_id
}

} // verus!
