use cars2_rich_presence::helpers::maps;
use cars2_rich_presence::{get_display_name, get_mode_name};

#[test]
fn level_names_are_looked_up() {
    assert_eq!(get_display_name("TRACK_A_OilRig"), "Pipeline Sprint");
    assert_eq!(get_display_name("TRACK_C_TokyoXtreme"), "Imperial Tour");
    assert_eq!(get_display_name("Location_MI_Radiator"), "Radiator Springs Arena");
    assert_eq!(get_display_name("Location_MI_AIR"), "Airport Arena");
    assert_eq!(get_display_name(""), "");
}

#[test]
fn unknown_level_names_are_reported() {
    assert_eq!(get_display_name("TRACK_D_Moon"), "Unknown level TRACK_D_Moon");
    assert_eq!(get_display_name("track_a_oilrig"), "Unknown level track_a_oilrig");
    assert_eq!(maps::get_display_name("Location_MI_Air"), "Unknown level Location_MI_Air");
}

#[test]
fn both_level_lookups_agree() {
    for name in ["TRACK_B_Italy", "Location_MI_Tokyo", "nothing", ""] {
        assert_eq!(get_display_name(name), maps::get_display_name(name));
    }
}

#[test]
fn mode_names_are_looked_up() {
    assert_eq!(maps::get_mode_name("RACE"), "Race");
    assert_eq!(maps::get_mode_name("BATTLE_RACE"), "Battle Race");
    assert_eq!(maps::get_mode_name("TAKEDOWN"), "Attack");
    assert_eq!(maps::get_mode_name("COLLECT"), "Survival");
    assert_eq!(maps::get_mode_name("BOMB"), "Disruptor");
    assert_eq!(get_mode_name("HUNTER"), "Hunter");
    assert_eq!(get_mode_name("ARENA"), "Arena");
}

#[test]
fn unknown_mode_names_are_reported() {
    assert_eq!(maps::get_mode_name("DRIFT"), "Unknown mode DRIFT");
    assert_eq!(get_mode_name("DRIFT"), "Unknown level DRIFT");
}

#[test]
fn mode_icons_are_looked_up() {
    assert_eq!(maps::get_mode_icon("RACE"), "icon_race");
    assert_eq!(maps::get_mode_icon("BATTLE_RACE"), "icon_battlerace");
    assert_eq!(maps::get_mode_icon("TAKEDOWN"), "icon_attack");
    assert_eq!(maps::get_mode_icon("COLLECT"), "icon_survival");
    assert_eq!(maps::get_mode_icon("HUNTER"), "icon_hunter");
    assert_eq!(maps::get_mode_icon("ARENA"), "icon_arena");
    assert_eq!(maps::get_mode_icon("BOMB"), "icon_disruptor");
    assert_eq!(maps::get_mode_icon(""), "");
    assert_eq!(maps::get_mode_icon("race"), "Unknown mode race");
}

#[test]
fn every_named_mode_has_an_icon() {
    for mode in ["RACE", "BATTLE_RACE", "TAKEDOWN", "COLLECT", "HUNTER", "ARENA", "BOMB", "", "DRIFT"] {
        let named = !maps::get_mode_name(mode).starts_with("Unknown mode ");
        let has_icon = !maps::get_mode_icon(mode).starts_with("Unknown mode ");
        assert_eq!(named, has_icon);
    }
}

#[test]
fn icon_keys_follow_mode_names() {
    for mode in ["RACE", "BATTLE_RACE", "TAKEDOWN", "COLLECT", "HUNTER", "ARENA", "BOMB"] {
        let expected = format!("icon_{}", maps::get_mode_name(mode).to_ascii_lowercase().replace(' ', ""));
        assert_eq!(maps::get_mode_icon(mode), expected);
    }
}
