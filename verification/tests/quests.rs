use presence_relay::accounts::User;
use presence_relay::quests::{get_next_questline_id, get_quest_data, Quest, Questline};
use presence_relay::session::{ClientState, UserStore, Vec2i};

fn quest(speaker: &str, dialog: &str, quest_id: Option<u16>) -> Quest {
    Quest {
        speaker: speaker.to_string(),
        dialog: dialog.to_string(),
        quest_id,
        quest_name: None,
        completion: None,
    }
}

fn sample_questlines() -> Vec<Questline> {
    vec![
        Questline {
            id: 10,
            quests: vec![
                quest("guide", "welcome", Some(1)),
                quest("guide", "look around", None),
                quest("librarian", "find the book", Some(2)),
            ],
        },
        Questline { id: 30, quests: vec![quest("cook", "fetch apples", Some(5))] },
        Questline { id: 20, quests: vec![quest("cook", "duplicate id", Some(2))] },
    ]
}

#[test]
fn quest_lookup_finds_by_id() {
    let questlines = sample_questlines();
    let q = get_quest_data(5, &questlines).expect("quest 5 exists");
    assert_eq!(q.speaker, "cook");
    assert_eq!(q.dialog, "fetch apples");
    assert_eq!(q.quest_id, Some(5));
}

#[test]
fn quest_lookup_returns_first_match_in_order() {
    let questlines = sample_questlines();
    // Quest id 2 occurs twice; the earlier questline wins.
    let q = get_quest_data(2, &questlines).expect("quest 2 exists");
    assert_eq!(q.speaker, "librarian");
}

#[test]
fn quest_lookup_misses_unknown_id() {
    let questlines = sample_questlines();
    assert!(get_quest_data(99, &questlines).is_none());
    assert!(get_quest_data(99, &Vec::new()).is_none());
}

#[test]
fn quest_lookup_skips_dialog_without_quest_id() {
    let questlines = sample_questlines();
    // Quest entries without an id never match, whatever is asked for.
    let q = get_quest_data(1, &questlines).expect("quest 1 exists");
    assert_eq!(q.dialog, "welcome");
}

#[test]
fn next_questline_id_picks_smallest_greater() {
    let questlines = sample_questlines();
    assert_eq!(get_next_questline_id(&questlines, 0), 10);
    assert_eq!(get_next_questline_id(&questlines, 10), 20);
    assert_eq!(get_next_questline_id(&questlines, 20), 30);
}

#[test]
fn next_questline_id_defaults_to_max_when_done() {
    let questlines = sample_questlines();
    assert_eq!(get_next_questline_id(&questlines, 30), u16::MAX);
    assert_eq!(get_next_questline_id(&Vec::new(), 0), u16::MAX);
}

#[test]
fn fresh_client_state_matches_defaults() {
    let state = ClientState::new("alice");
    assert_eq!(state.username, "alice");
    assert!(state.authenticated);
    assert_eq!(state.pos, Vec2i { x: 0, y: 0 });
    assert_eq!(state.location, "outside");
    assert_eq!(state.current_quest_id, 0);
    assert_eq!(state.current_questline_id, 0);
    assert_eq!(state.dialog_offset, 0);
    assert!(state.complete_quest_ids.is_empty());
}

#[test]
fn fresh_user_store_wraps_fresh_state() {
    let store = UserStore::new("bob", 99);
    assert_eq!(store.username, "bob");
    assert_eq!(store.pass_hash, 99);
    assert_eq!(store.state.username, "bob");
    assert!(store.state.authenticated);
}

#[test]
fn account_credentials_check() {
    let user = User {
        username: "alice".to_string(),
        user_id: "id-1".to_string(),
        keys: vec!["key".to_string()],
    };
    assert!(user.has_credentials());
    let bare = User { username: "bob".to_string(), user_id: "id-2".to_string(), keys: vec![] };
    assert!(!bare.has_credentials());
}
