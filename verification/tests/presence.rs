use cars2_rich_presence::presence::{
    activity_for, level_event, menus, mission_mode_event, Activity, ActivityKind, Received,
    WorkerAction,
};
use cars2_rich_presence::text::strip_repeated_prefix;
use cars2_rich_presence::{RPCEvent, RPCState};

fn in_menus() -> Activity {
    Activity {
        kind: ActivityKind::Playing,
        state: "In Menus".to_string(),
        details: None,
        large_image: None,
    }
}

fn in_level(state: &str, details: &str, image: &str) -> Activity {
    Activity {
        kind: ActivityKind::Playing,
        state: state.to_string(),
        details: Some(details.to_string()),
        large_image: Some(image.to_string()),
    }
}

#[test]
fn menus_activity_text() {
    assert_eq!(menus(), in_menus());
}

#[test]
fn frontend_or_no_level_shows_menus() {
    assert_eq!(activity_for(true, "TRACK_A_OilRig", "RACE"), in_menus());
    assert_eq!(activity_for(false, "", "RACE"), in_menus());
    assert_eq!(activity_for(true, "", ""), in_menus());
}

#[test]
fn level_activity_names_level_mode_and_image() {
    assert_eq!(
        activity_for(false, "Location_MI_Oil", "BOMB"),
        in_level("In Disruptor", "Oil Rig Arena", "mi_oil")
    );
    assert_eq!(
        activity_for(false, "TRACK_A_Italy", "RACE"),
        in_level("In Race", "Harbor Sprint", "track_a_italy")
    );
    assert_eq!(
        activity_for(false, "TRACK_B_RadiatorSprings", "BATTLE_RACE"),
        in_level("In Battle Race", "Canyon Run", "track_b_radiatorsprings")
    );
}

#[test]
fn level_activity_with_unknown_names() {
    assert_eq!(
        activity_for(false, "Location_Location_NEW", "DRIFT"),
        in_level("In Unknown level DRIFT", "Unknown level Location_Location_NEW", "new")
    );
    assert_eq!(
        activity_for(false, "TRACK_A_Air", ""),
        in_level("In ", "Terminal Sprint", "track_a_air")
    );
}

#[test]
fn repeated_prefixes_are_stripped() {
    assert_eq!(strip_repeated_prefix("Location_MI_Oil", "Location_"), "MI_Oil");
    assert_eq!(strip_repeated_prefix("Location_Location_X", "Location_"), "X");
    assert_eq!(strip_repeated_prefix("Location_", "Location_"), "");
    assert_eq!(strip_repeated_prefix("TRACK_Location_", "Location_"), "TRACK_Location_");
    assert_eq!(strip_repeated_prefix("Locat", "Location_"), "Locat");
    assert_eq!(strip_repeated_prefix("abc", ""), "abc");
    assert_eq!(strip_repeated_prefix("ééx", "é"), "x");
}

#[test]
fn default_state_is_empty() {
    let s = RPCState::default();
    assert!(!s.in_frontend());
    assert_eq!(s.current_level(), "");
    assert_eq!(s.mission_mode(), "");
    assert_eq!(s.activity(), in_menus());
}

#[test]
fn events_set_their_field() {
    let mut s = RPCState::default();
    s.apply(RPCEvent::CurrentLevel("TRACK_B_London".to_string()));
    assert_eq!(s.current_level(), "TRACK_B_London");
    assert!(!s.in_frontend());
    assert_eq!(s.mission_mode(), "");
    s.apply(RPCEvent::MissionMode("HUNTER".to_string()));
    assert_eq!(s.mission_mode(), "HUNTER");
    assert_eq!(s.current_level(), "TRACK_B_London");
    s.apply(RPCEvent::InFrontend(true));
    assert!(s.in_frontend());
    assert_eq!(s.current_level(), "TRACK_B_London");
    assert_eq!(s.mission_mode(), "HUNTER");
}

#[test]
fn worker_publishes_after_each_event() {
    let mut s = RPCState::default();
    assert_eq!(
        s.step(Received::Event(RPCEvent::CurrentLevel("TRACK_B_London".to_string()))),
        WorkerAction::Publish(in_level("In ", "Hyde Tour", "track_b_london"))
    );
    assert_eq!(
        s.step(Received::Event(RPCEvent::MissionMode("HUNTER".to_string()))),
        WorkerAction::Publish(in_level("In Hunter", "Hyde Tour", "track_b_london"))
    );
    assert_eq!(
        s.step(Received::Event(RPCEvent::InFrontend(true))),
        WorkerAction::Publish(in_menus())
    );
    assert_eq!(
        s.step(Received::Event(RPCEvent::InFrontend(false))),
        WorkerAction::Publish(in_level("In Hunter", "Hyde Tour", "track_b_london"))
    );
}

#[test]
fn worker_waits_on_timeout_and_stops_on_disconnect() {
    let mut s = RPCState::default();
    s.apply(RPCEvent::CurrentLevel("TRACK_A_London".to_string()));
    assert_eq!(s.step(Received::Timeout), WorkerAction::Wait);
    assert_eq!(s.current_level(), "TRACK_A_London");
    assert_eq!(s.step(Received::Disconnected), WorkerAction::Stop);
    assert_eq!(s.current_level(), "TRACK_A_London");
    assert!(!s.in_frontend());
}

#[test]
fn entering_frontend_shows_menus_whatever_was_known() {
    let mut s = RPCState::default();
    s.apply(RPCEvent::CurrentLevel("Location_MI_Tokyo".to_string()));
    s.apply(RPCEvent::MissionMode("ARENA".to_string()));
    assert_eq!(s.activity(), in_level("In Arena", "Tokyo Arena", "mi_tokyo"));
    s.apply(RPCEvent::InFrontend(true));
    assert_eq!(s.activity(), in_menus());
}

#[test]
fn later_event_of_a_kind_wins() {
    let mut a = RPCState::default();
    a.apply(RPCEvent::CurrentLevel("TRACK_A_Italy".to_string()));
    a.apply(RPCEvent::CurrentLevel("TRACK_C_Italy".to_string()));
    let mut b = RPCState::default();
    b.apply(RPCEvent::CurrentLevel("TRACK_C_Italy".to_string()));
    assert_eq!(a.current_level(), b.current_level());
    assert_eq!(a.activity(), b.activity());
}

#[test]
fn repeated_event_changes_nothing() {
    let mut a = RPCState::default();
    a.apply(RPCEvent::MissionMode("COLLECT".to_string()));
    let before = a.mission_mode().to_string();
    a.apply(RPCEvent::MissionMode("COLLECT".to_string()));
    assert_eq!(a.mission_mode(), before);
}

#[test]
fn events_of_different_kinds_commute() {
    let mut a = RPCState::default();
    a.apply(RPCEvent::CurrentLevel("TRACK_C_Air".to_string()));
    a.apply(RPCEvent::MissionMode("TAKEDOWN".to_string()));
    let mut b = RPCState::default();
    b.apply(RPCEvent::MissionMode("TAKEDOWN".to_string()));
    b.apply(RPCEvent::CurrentLevel("TRACK_C_Air".to_string()));
    assert_eq!(a.current_level(), b.current_level());
    assert_eq!(a.mission_mode(), b.mission_mode());
    assert_eq!(a.in_frontend(), b.in_frontend());
    assert_eq!(a.activity(), in_level("In Attack", "Runway Tour", "track_c_air"));
}

#[test]
fn level_event_decodes_the_games_bytes() {
    match level_event(b"TRACK_B_Italy") {
        RPCEvent::CurrentLevel(s) => assert_eq!(s, "TRACK_B_Italy"),
        other => panic!("unexpected event {:?}", other),
    }
    match level_event(b"bad\xffname") {
        RPCEvent::CurrentLevel(s) => assert_eq!(s, "bad\u{FFFD}name"),
        other => panic!("unexpected event {:?}", other),
    }
}

#[test]
fn mission_mode_event_decodes_the_games_bytes() {
    match mission_mode_event(b"BATTLE_RACE") {
        RPCEvent::MissionMode(s) => assert_eq!(s, "BATTLE_RACE"),
        other => panic!("unexpected event {:?}", other),
    }
    match mission_mode_event(b"") {
        RPCEvent::MissionMode(s) => assert_eq!(s, ""),
        other => panic!("unexpected event {:?}", other),
    }
}

#[test]
fn every_activity_is_playing() {
    assert_eq!(activity_for(true, "", "").kind, ActivityKind::Playing);
    assert_eq!(activity_for(false, "TRACK_A_Air", "RACE").kind, ActivityKind::Playing);
}
