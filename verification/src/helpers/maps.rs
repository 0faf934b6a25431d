use vstd::prelude::*;

use crate::text::{ascii_lowercase, joined_text, owned_text, same_text, without_spaces};

verus! {

/// The entries of a lookup table, each an internal name and the text it stands for.
pub open spec fn entries_view(t: Seq<(&'static str, &'static str)>) -> Seq<(Seq<char>, Seq<char>)> {
    t.map_values(|e: (&'static str, &'static str)| (e.0@, e.1@))
}

/// The map that a table's entries make when inserted one after the other: where a name occurs
/// twice, the later entry stands.
pub open spec fn table_map(entries: Seq<(Seq<char>, Seq<char>)>) -> Map<Seq<char>, Seq<char>>
    decreases entries.len(),
{
    if entries.len() == 0 {
        Map::empty()
    } else {
        table_map(entries.drop_last()).insert(entries.last().0, entries.last().1)
    }
}

/// The display name of each level, by its internal name.
pub open spec fn level_names() -> Map<Seq<char>, Seq<char>> {
    map![
        "TRACK_A_OilRig"@ => "Pipeline Sprint"@,
        "TRACK_B_OilRig"@ => "Oil Rig Run"@,
        "TRACK_A_TokyoXtreme"@ => "Ginza Sprint"@,
        "TRACK_B_TokyoXtreme"@ => "Vista Run"@,
        "TRACK_C_TokyoXtreme"@ => "Imperial Tour"@,
        "TRACK_A_Air"@ => "Terminal Sprint"@,
        "TRACK_C_Air"@ => "Runway Tour"@,
        "TRACK_A_Italy"@ => "Harbor Sprint"@,
        "TRACK_B_Italy"@ => "Mountain Run"@,
        "TRACK_C_Italy"@ => "Casino Tour"@,
        "TRACK_A_London"@ => "Buckingham Sprint"@,
        "TRACK_B_London"@ => "Hyde Tour"@,
        "TRACK_A_RadiatorSprings"@ => "Radiator Sprint"@,
        "TRACK_B_RadiatorSprings"@ => "Canyon Run"@,
        "TRACK_C_RadiatorSprings"@ => "Timberline Sprint"@,
        "Location_MI_Oil"@ => "Oil Rig Arena"@,
        "Location_MI_AIR"@ => "Airport Arena"@,
        "Location_MI_Italy"@ => "Italy Arena"@,
        "Location_MI_London"@ => "London Arena"@,
        "Location_MI_Tokyo"@ => "Tokyo Arena"@,
        "Location_MI_Radiator"@ => "Radiator Springs Arena"@,
        ""@ => ""@,
    ]
}

/// The display name of each mission mode, by its internal name.
pub open spec fn mode_names() -> Map<Seq<char>, Seq<char>> {
    map![
        "RACE"@ => "Race"@,
        "BATTLE_RACE"@ => "Battle Race"@,
        "TAKEDOWN"@ => "Attack"@,
        "COLLECT"@ => "Survival"@,
        "HUNTER"@ => "Hunter"@,
        "ARENA"@ => "Arena"@,
        "BOMB"@ => "Disruptor"@,
        ""@ => ""@,
    ]
}

/// The image key of each mission mode's icon, by the mode's internal name.
pub open spec fn mode_icons() -> Map<Seq<char>, Seq<char>> {
    map![
        "RACE"@ => "icon_race"@,
        "BATTLE_RACE"@ => "icon_battlerace"@,
        "TAKEDOWN"@ => "icon_attack"@,
        "COLLECT"@ => "icon_survival"@,
        "HUNTER"@ => "icon_hunter"@,
        "ARENA"@ => "icon_arena"@,
        "BOMB"@ => "icon_disruptor"@,
        ""@ => ""@,
    ]
}

/// The level table's entries, in the order they are listed.
pub open spec fn level_entries() -> Seq<(Seq<char>, Seq<char>)> {
    seq![
        ("TRACK_A_OilRig"@, "Pipeline Sprint"@),
        ("TRACK_B_OilRig"@, "Oil Rig Run"@),
        ("TRACK_A_TokyoXtreme"@, "Ginza Sprint"@),
        ("TRACK_B_TokyoXtreme"@, "Vista Run"@),
        ("TRACK_C_TokyoXtreme"@, "Imperial Tour"@),
        ("TRACK_A_Air"@, "Terminal Sprint"@),
        ("TRACK_C_Air"@, "Runway Tour"@),
        ("TRACK_A_Italy"@, "Harbor Sprint"@),
        ("TRACK_B_Italy"@, "Mountain Run"@),
        ("TRACK_C_Italy"@, "Casino Tour"@),
        ("TRACK_A_London"@, "Buckingham Sprint"@),
        ("TRACK_B_London"@, "Hyde Tour"@),
        ("TRACK_A_RadiatorSprings"@, "Radiator Sprint"@),
        ("TRACK_B_RadiatorSprings"@, "Canyon Run"@),
        ("TRACK_C_RadiatorSprings"@, "Timberline Sprint"@),
        ("Location_MI_Oil"@, "Oil Rig Arena"@),
        ("Location_MI_AIR"@, "Airport Arena"@),
        ("Location_MI_Italy"@, "Italy Arena"@),
        ("Location_MI_London"@, "London Arena"@),
        ("Location_MI_Tokyo"@, "Tokyo Arena"@),
        ("Location_MI_Radiator"@, "Radiator Springs Arena"@),
        (""@, ""@),
    ]
}

/// The mission mode table's entries, in the order they are listed.
pub open spec fn mode_entries() -> Seq<(Seq<char>, Seq<char>)> {
    seq![
        ("RACE"@, "Race"@),
        ("BATTLE_RACE"@, "Battle Race"@),
        ("TAKEDOWN"@, "Attack"@),
        ("COLLECT"@, "Survival"@),
        ("HUNTER"@, "Hunter"@),
        ("ARENA"@, "Arena"@),
        ("BOMB"@, "Disruptor"@),
        (""@, ""@),
    ]
}

/// The mode icon table's entries, in the order they are listed.
pub open spec fn icon_entries() -> Seq<(Seq<char>, Seq<char>)> {
    seq![
        ("RACE"@, "icon_race"@),
        ("BATTLE_RACE"@, "icon_battlerace"@),
        ("TAKEDOWN"@, "icon_attack"@),
        ("COLLECT"@, "icon_survival"@),
        ("HUNTER"@, "icon_hunter"@),
        ("ARENA"@, "icon_arena"@),
        ("BOMB"@, "icon_disruptor"@),
        (""@, ""@),
    ]
}

/// Each table's entries make its map.
pub(crate) proof fn lemma_entries_make_the_maps()
    ensures
        table_map(level_entries()) == level_names(),
        table_map(mode_entries()) == mode_names(),
        table_map(icon_entries()) == mode_icons(),
{
    reveal_with_fuel(table_map, 23);
}

/// The level table.
pub(crate) fn map_level_names() -> (t: Vec<(&'static str, &'static str)>)
    ensures
        entries_view(t@) == level_entries(),
{
    let mut t: Vec<(&'static str, &'static str)> = Vec::new();
    t.push(("TRACK_A_OilRig", "Pipeline Sprint"));
    t.push(("TRACK_B_OilRig", "Oil Rig Run"));
    t.push(("TRACK_A_TokyoXtreme", "Ginza Sprint"));
    t.push(("TRACK_B_TokyoXtreme", "Vista Run"));
    t.push(("TRACK_C_TokyoXtreme", "Imperial Tour"));
    t.push(("TRACK_A_Air", "Terminal Sprint"));
    t.push(("TRACK_C_Air", "Runway Tour"));
    t.push(("TRACK_A_Italy", "Harbor Sprint"));
    t.push(("TRACK_B_Italy", "Mountain Run"));
    t.push(("TRACK_C_Italy", "Casino Tour"));
    t.push(("TRACK_A_London", "Buckingham Sprint"));
    t.push(("TRACK_B_London", "Hyde Tour"));
    t.push(("TRACK_A_RadiatorSprings", "Radiator Sprint"));
    t.push(("TRACK_B_RadiatorSprings", "Canyon Run"));
    t.push(("TRACK_C_RadiatorSprings", "Timberline Sprint"));
    t.push(("Location_MI_Oil", "Oil Rig Arena"));
    t.push(("Location_MI_AIR", "Airport Arena"));
    t.push(("Location_MI_Italy", "Italy Arena"));
    t.push(("Location_MI_London", "London Arena"));
    t.push(("Location_MI_Tokyo", "Tokyo Arena"));
    t.push(("Location_MI_Radiator", "Radiator Springs Arena"));
    t.push(("", ""));
    proof {
        assert(entries_view(t@) =~= level_entries());
    }
    t
}

/// The mission mode table.
pub(crate) fn map_mode_names() -> (t: Vec<(&'static str, &'static str)>)
    ensures
        entries_view(t@) == mode_entries(),
{
    let mut t: Vec<(&'static str, &'static str)> = Vec::new();
    t.push(("RACE", "Race"));
    t.push(("BATTLE_RACE", "Battle Race"));
    t.push(("TAKEDOWN", "Attack"));
    t.push(("COLLECT", "Survival"));
    t.push(("HUNTER", "Hunter"));
    t.push(("ARENA", "Arena"));
    t.push(("BOMB", "Disruptor"));
    t.push(("", ""));
    proof {
        assert(entries_view(t@) =~= mode_entries());
    }
    t
}

/// The mission mode icon table.
pub(crate) fn map_mode_icons() -> (t: Vec<(&'static str, &'static str)>)
    ensures
        entries_view(t@) == icon_entries(),
{
    let mut t: Vec<(&'static str, &'static str)> = Vec::new();
    t.push(("RACE", "icon_race"));
    t.push(("BATTLE_RACE", "icon_battlerace"));
    t.push(("TAKEDOWN", "icon_attack"));
    t.push(("COLLECT", "icon_survival"));
    t.push(("HUNTER", "icon_hunter"));
    t.push(("ARENA", "icon_arena"));
    t.push(("BOMB", "icon_disruptor"));
    t.push(("", ""));
    proof {
        assert(entries_view(t@) =~= icon_entries());
    }
    t
}

/// The text that a lookup gives for `name`: its entry in `table`, else `unknown` followed by
/// `name` itself.
pub open spec fn named_or_unknown(
    table: Map<Seq<char>, Seq<char>>,
    name: Seq<char>,
    unknown: Seq<char>,
) -> Seq<char> {
    if table.dom().contains(name) {
        table[name]
    } else {
        unknown + name
    }
}

/// The last entry for a name is the one that the table maps it to.
proof fn lemma_table_map_last_entry(entries: Seq<(Seq<char>, Seq<char>)>, name: Seq<char>, i: int)
    requires
        0 <= i < entries.len(),
        entries[i].0 == name,
        forall|j: int| i < j < entries.len() ==> #[trigger] entries[j].0 != name,
    ensures
        table_map(entries).dom().contains(name),
        table_map(entries)[name] == entries[i].1,
    decreases entries.len(),
{
    if i < entries.len() - 1 {
        let rest = entries.drop_last();
        assert forall|j: int| i < j < rest.len() implies #[trigger] rest[j].0 != name by {
            assert(rest[j] == entries[j]);
        }
        assert(rest[i] == entries[i]);
        lemma_table_map_last_entry(rest, name, i);
    }
}

/// A name with no entry is not in the table's map.
proof fn lemma_table_map_no_entry(entries: Seq<(Seq<char>, Seq<char>)>, name: Seq<char>)
    requires
        forall|j: int| 0 <= j < entries.len() ==> #[trigger] entries[j].0 != name,
    ensures
        !table_map(entries).dom().contains(name),
    decreases entries.len(),
{
    if entries.len() > 0 {
        let rest = entries.drop_last();
        assert forall|j: int| 0 <= j < rest.len() implies #[trigger] rest[j].0 != name by {
            assert(rest[j] == entries[j]);
        }
        lemma_table_map_no_entry(rest, name);
    }
}

/// The text that `table` holds for `key`, if any; the last entry for a name stands, as it
/// would after inserting the entries into a map in order.
fn find(table: &Vec<(&'static str, &'static str)>, key: &str) -> (r: Option<&'static str>)
    ensures
        match r {
            Some(v) => table_map(entries_view(table@)).dom().contains(key@)
                && table_map(entries_view(table@))[key@] == v@,
            None => !table_map(entries_view(table@)).dom().contains(key@),
        },
{
    let ghost entries = entries_view(table@);
    let mut i: usize = table.len();
    while i > 0
        invariant
            i <= table@.len(),
            entries == entries_view(table@),
            forall|j: int| i <= j < entries.len() ==> #[trigger] entries[j].0 != key@,
        decreases i,
    {
        let (name, text) = table[i - 1];
        if same_text(name, key) {
            proof {
                lemma_table_map_last_entry(entries, key@, i - 1);
            }
            return Some(text);
        }
        i -= 1;
    }
    proof {
        lemma_table_map_no_entry(entries, key@);
    }
    None
}

/// The text for `name` in `table`, or `unknown` followed by `name`.
pub(crate) fn lookup_or_unknown(
    table: &Vec<(&'static str, &'static str)>,
    name: &str,
    unknown: &str,
) -> (r: String)
    ensures
        r@ == named_or_unknown(table_map(entries_view(table@)), name@, unknown@),
{
    match find(table, name) {
        Some(text) => owned_text(text),
        None => joined_text(unknown, name),
    }
}

/// The display name of a level, or "Unknown level " followed by its internal name.
pub fn get_display_name(internal_name: &str) -> (r: String)
    ensures
        r@ == named_or_unknown(level_names(), internal_name@, "Unknown level "@),
{
    let table = map_level_names();
    proof {
        lemma_entries_make_the_maps();
    }
    lookup_or_unknown(&table, internal_name, "Unknown level ")
}

/// The display name of a mission mode, or "Unknown mode " followed by its internal name.
pub fn get_mode_name(internal_name: &str) -> (r: String)
    ensures
        r@ == named_or_unknown(mode_names(), internal_name@, "Unknown mode "@),
{
    let table = map_mode_names();
    proof {
        lemma_entries_make_the_maps();
    }
    lookup_or_unknown(&table, internal_name, "Unknown mode ")
}

/// The image key of a mission mode's icon, or "Unknown mode " followed by the mode's name.
pub fn get_mode_icon(mode_name: &str) -> (r: String)
    ensures
        r@ == named_or_unknown(mode_icons(), mode_name@, "Unknown mode "@),
{
    let table = map_mode_icons();
    proof {
        lemma_entries_make_the_maps();
    }
    lookup_or_unknown(&table, mode_name, "Unknown mode ")
}

/// Whether each entry's name is new: no earlier entry has it.
pub open spec fn names_fresh(entries: Seq<(Seq<char>, Seq<char>)>) -> bool
    decreases entries.len(),
{
    entries.len() == 0 || (names_fresh(entries.drop_last()) && !table_map(
        entries.drop_last(),
    ).dom().contains(entries.last().0))
}

/// A table whose names are all new maps as many names as it has entries.
proof fn lemma_fresh_names_count(entries: Seq<(Seq<char>, Seq<char>)>)
    requires
        names_fresh(entries),
    ensures
        table_map(entries).dom().finite(),
        table_map(entries).dom().len() == entries.len(),
    decreases entries.len(),
{
    if entries.len() > 0 {
        lemma_fresh_names_count(entries.drop_last());
    }
}

/// The level names differ from one another, so the level table gives each its own entry.
proof fn lemma_level_keys()
    ensures
        names_fresh(level_entries()),
        level_names().dom().contains("TRACK_A_OilRig"@) && level_names()["TRACK_A_OilRig"@] == "Pipeline Sprint"@,
        level_names().dom().contains("TRACK_B_OilRig"@) && level_names()["TRACK_B_OilRig"@] == "Oil Rig Run"@,
        level_names().dom().contains("TRACK_A_TokyoXtreme"@) && level_names()["TRACK_A_TokyoXtreme"@] == "Ginza Sprint"@,
        level_names().dom().contains("TRACK_B_TokyoXtreme"@) && level_names()["TRACK_B_TokyoXtreme"@] == "Vista Run"@,
        level_names().dom().contains("TRACK_C_TokyoXtreme"@) && level_names()["TRACK_C_TokyoXtreme"@] == "Imperial Tour"@,
        level_names().dom().contains("TRACK_A_Air"@) && level_names()["TRACK_A_Air"@] == "Terminal Sprint"@,
        level_names().dom().contains("TRACK_C_Air"@) && level_names()["TRACK_C_Air"@] == "Runway Tour"@,
        level_names().dom().contains("TRACK_A_Italy"@) && level_names()["TRACK_A_Italy"@] == "Harbor Sprint"@,
        level_names().dom().contains("TRACK_B_Italy"@) && level_names()["TRACK_B_Italy"@] == "Mountain Run"@,
        level_names().dom().contains("TRACK_C_Italy"@) && level_names()["TRACK_C_Italy"@] == "Casino Tour"@,
        level_names().dom().contains("TRACK_A_London"@) && level_names()["TRACK_A_London"@] == "Buckingham Sprint"@,
        level_names().dom().contains("TRACK_B_London"@) && level_names()["TRACK_B_London"@] == "Hyde Tour"@,
        level_names().dom().contains("TRACK_A_RadiatorSprings"@) && level_names()["TRACK_A_RadiatorSprings"@] == "Radiator Sprint"@,
        level_names().dom().contains("TRACK_B_RadiatorSprings"@) && level_names()["TRACK_B_RadiatorSprings"@] == "Canyon Run"@,
        level_names().dom().contains("TRACK_C_RadiatorSprings"@) && level_names()["TRACK_C_RadiatorSprings"@] == "Timberline Sprint"@,
        level_names().dom().contains("Location_MI_Oil"@) && level_names()["Location_MI_Oil"@] == "Oil Rig Arena"@,
        level_names().dom().contains("Location_MI_AIR"@) && level_names()["Location_MI_AIR"@] == "Airport Arena"@,
        level_names().dom().contains("Location_MI_Italy"@) && level_names()["Location_MI_Italy"@] == "Italy Arena"@,
        level_names().dom().contains("Location_MI_London"@) && level_names()["Location_MI_London"@] == "London Arena"@,
        level_names().dom().contains("Location_MI_Tokyo"@) && level_names()["Location_MI_Tokyo"@] == "Tokyo Arena"@,
        level_names().dom().contains("Location_MI_Radiator"@) && level_names()["Location_MI_Radiator"@] == "Radiator Springs Arena"@,
        level_names().dom().contains(""@) && level_names()[""@] == ""@,
{
    reveal_strlit("TRACK_A_OilRig");
    assert("TRACK_A_OilRig"@.len() == 14);
    reveal_strlit("TRACK_B_OilRig");
    assert("TRACK_B_OilRig"@.len() == 14);
    reveal_strlit("TRACK_A_TokyoXtreme");
    assert("TRACK_A_TokyoXtreme"@.len() == 19);
    reveal_strlit("TRACK_B_TokyoXtreme");
    assert("TRACK_B_TokyoXtreme"@.len() == 19);
    reveal_strlit("TRACK_C_TokyoXtreme");
    assert("TRACK_C_TokyoXtreme"@.len() == 19);
    reveal_strlit("TRACK_A_Air");
    assert("TRACK_A_Air"@.len() == 11);
    reveal_strlit("TRACK_C_Air");
    assert("TRACK_C_Air"@.len() == 11);
    reveal_strlit("TRACK_A_Italy");
    assert("TRACK_A_Italy"@.len() == 13);
    reveal_strlit("TRACK_B_Italy");
    assert("TRACK_B_Italy"@.len() == 13);
    reveal_strlit("TRACK_C_Italy");
    assert("TRACK_C_Italy"@.len() == 13);
    reveal_strlit("TRACK_A_London");
    assert("TRACK_A_London"@.len() == 14);
    reveal_strlit("TRACK_B_London");
    assert("TRACK_B_London"@.len() == 14);
    reveal_strlit("TRACK_A_RadiatorSprings");
    assert("TRACK_A_RadiatorSprings"@.len() == 23);
    reveal_strlit("TRACK_B_RadiatorSprings");
    assert("TRACK_B_RadiatorSprings"@.len() == 23);
    reveal_strlit("TRACK_C_RadiatorSprings");
    assert("TRACK_C_RadiatorSprings"@.len() == 23);
    reveal_strlit("Location_MI_Oil");
    assert("Location_MI_Oil"@.len() == 15);
    reveal_strlit("Location_MI_AIR");
    assert("Location_MI_AIR"@.len() == 15);
    reveal_strlit("Location_MI_Italy");
    assert("Location_MI_Italy"@.len() == 17);
    reveal_strlit("Location_MI_London");
    assert("Location_MI_London"@.len() == 18);
    reveal_strlit("Location_MI_Tokyo");
    assert("Location_MI_Tokyo"@.len() == 17);
    reveal_strlit("Location_MI_Radiator");
    assert("Location_MI_Radiator"@.len() == 20);
    reveal_strlit("");
    assert(""@.len() == 0);
    assert("TRACK_A_OilRig"@[6] != "TRACK_B_OilRig"@[6]);
    assert("TRACK_A_OilRig"@[8] != "TRACK_A_London"@[8]);
    assert("TRACK_A_OilRig"@[6] != "TRACK_B_London"@[6]);
    assert("TRACK_B_OilRig"@[6] != "TRACK_A_London"@[6]);
    assert("TRACK_B_OilRig"@[8] != "TRACK_B_London"@[8]);
    assert("TRACK_A_TokyoXtreme"@[6] != "TRACK_B_TokyoXtreme"@[6]);
    assert("TRACK_A_TokyoXtreme"@[6] != "TRACK_C_TokyoXtreme"@[6]);
    assert("TRACK_B_TokyoXtreme"@[6] != "TRACK_C_TokyoXtreme"@[6]);
    assert("TRACK_A_Air"@[6] != "TRACK_C_Air"@[6]);
    assert("TRACK_A_Italy"@[6] != "TRACK_B_Italy"@[6]);
    assert("TRACK_A_Italy"@[6] != "TRACK_C_Italy"@[6]);
    assert("TRACK_B_Italy"@[6] != "TRACK_C_Italy"@[6]);
    assert("TRACK_A_London"@[6] != "TRACK_B_London"@[6]);
    assert("TRACK_A_RadiatorSprings"@[6] != "TRACK_B_RadiatorSprings"@[6]);
    assert("TRACK_A_RadiatorSprings"@[6] != "TRACK_C_RadiatorSprings"@[6]);
    assert("TRACK_B_RadiatorSprings"@[6] != "TRACK_C_RadiatorSprings"@[6]);
    assert("Location_MI_Oil"@[12] != "Location_MI_AIR"@[12]);
    assert("Location_MI_Italy"@[12] != "Location_MI_Tokyo"@[12]);
    reveal_with_fuel(table_map, 23);
    reveal_with_fuel(names_fresh, 23);
}

/// The mission mode names differ from one another, so the mode and icon tables give each its
/// own entry.
proof fn lemma_mode_keys()
    ensures
        names_fresh(mode_entries()),
        names_fresh(icon_entries()),
        mode_names().dom().contains("RACE"@) && mode_names()["RACE"@] == "Race"@,
        mode_names().dom().contains("BATTLE_RACE"@) && mode_names()["BATTLE_RACE"@] == "Battle Race"@,
        mode_names().dom().contains("TAKEDOWN"@) && mode_names()["TAKEDOWN"@] == "Attack"@,
        mode_names().dom().contains("COLLECT"@) && mode_names()["COLLECT"@] == "Survival"@,
        mode_names().dom().contains("HUNTER"@) && mode_names()["HUNTER"@] == "Hunter"@,
        mode_names().dom().contains("ARENA"@) && mode_names()["ARENA"@] == "Arena"@,
        mode_names().dom().contains("BOMB"@) && mode_names()["BOMB"@] == "Disruptor"@,
        mode_names().dom().contains(""@) && mode_names()[""@] == ""@,
        mode_icons().dom().contains("RACE"@) && mode_icons()["RACE"@] == "icon_race"@,
        mode_icons().dom().contains("BATTLE_RACE"@) && mode_icons()["BATTLE_RACE"@] == "icon_battlerace"@,
        mode_icons().dom().contains("TAKEDOWN"@) && mode_icons()["TAKEDOWN"@] == "icon_attack"@,
        mode_icons().dom().contains("COLLECT"@) && mode_icons()["COLLECT"@] == "icon_survival"@,
        mode_icons().dom().contains("HUNTER"@) && mode_icons()["HUNTER"@] == "icon_hunter"@,
        mode_icons().dom().contains("ARENA"@) && mode_icons()["ARENA"@] == "icon_arena"@,
        mode_icons().dom().contains("BOMB"@) && mode_icons()["BOMB"@] == "icon_disruptor"@,
        mode_icons().dom().contains(""@) && mode_icons()[""@] == ""@,
{
    reveal_strlit("RACE");
    assert("RACE"@.len() == 4);
    reveal_strlit("BATTLE_RACE");
    assert("BATTLE_RACE"@.len() == 11);
    reveal_strlit("TAKEDOWN");
    assert("TAKEDOWN"@.len() == 8);
    reveal_strlit("COLLECT");
    assert("COLLECT"@.len() == 7);
    reveal_strlit("HUNTER");
    assert("HUNTER"@.len() == 6);
    reveal_strlit("ARENA");
    assert("ARENA"@.len() == 5);
    reveal_strlit("BOMB");
    assert("BOMB"@.len() == 4);
    reveal_strlit("");
    assert(""@.len() == 0);
    assert("RACE"@[0] != "BOMB"@[0]);
    reveal_with_fuel(table_map, 9);
    reveal_with_fuel(names_fresh, 9);
}

/// Each table lists every name once: the level table knows 22 levels, the mode and icon tables
/// 8 mission modes each, as many as they have entries.
pub proof fn law_each_table_lists_a_name_once()
    ensures
        level_names().dom().len() == 22,
        mode_names().dom().len() == 8,
        mode_icons().dom().len() == 8,
{
    lemma_level_keys();
    lemma_mode_keys();
    lemma_fresh_names_count(level_entries());
    lemma_fresh_names_count(mode_entries());
    lemma_fresh_names_count(icon_entries());
    lemma_entries_make_the_maps();
}

/// Every mission mode that has a display name has an icon, and no other name has one.
pub proof fn law_every_named_mode_has_an_icon()
    ensures
        mode_names().dom() == mode_icons().dom(),
{
    assert(mode_names().dom() =~= mode_icons().dom());
}

/// A text without spaces is left as it is.
proof fn lemma_without_spaces_unchanged(s: Seq<char>)
    requires
        forall|i: int| 0 <= i < s.len() ==> s[i] != ' ',
    ensures
        without_spaces(s) == s,
    decreases s.len(),
{
    if s.len() > 0 {
        lemma_without_spaces_unchanged(s.drop_first());
        assert(seq![s[0]] + s.drop_first() =~= s);
    }
}

/// Removing the spaces of two texts joined is joining the two texts with their spaces removed.
proof fn lemma_without_spaces_concat(a: Seq<char>, b: Seq<char>)
    ensures
        without_spaces(a + b) == without_spaces(a) + without_spaces(b),
    decreases a.len(),
{
    if a.len() == 0 {
        assert(a + b =~= b);
        assert(without_spaces(a) + without_spaces(b) =~= without_spaces(b));
    } else {
        assert((a + b).drop_first() =~= a.drop_first() + b);
        assert((a + b)[0] == a[0]);
        lemma_without_spaces_concat(a.drop_first(), b);
        if a[0] != ' ' {
            assert(seq![a[0]] + (without_spaces(a.drop_first()) + without_spaces(b))
                =~= (seq![a[0]] + without_spaces(a.drop_first())) + without_spaces(b));
        }
    }
}

/// Each icon key is "icon_" followed by its mode's display name in ASCII lowercase without
/// spaces, text by text.
proof fn lemma_icon_texts()
    ensures
        "icon_race"@ == "icon_"@ + ascii_lowercase(without_spaces("Race"@)),
        "icon_battlerace"@ == "icon_"@ + ascii_lowercase(without_spaces("Battle Race"@)),
        "icon_attack"@ == "icon_"@ + ascii_lowercase(without_spaces("Attack"@)),
        "icon_survival"@ == "icon_"@ + ascii_lowercase(without_spaces("Survival"@)),
        "icon_hunter"@ == "icon_"@ + ascii_lowercase(without_spaces("Hunter"@)),
        "icon_arena"@ == "icon_"@ + ascii_lowercase(without_spaces("Arena"@)),
        "icon_disruptor"@ == "icon_"@ + ascii_lowercase(without_spaces("Disruptor"@)),
{
    reveal_strlit("icon_");
    assert("icon_"@ =~= seq!['i', 'c', 'o', 'n', '_']);
    assert("icon_race"@ == "icon_"@ + ascii_lowercase(without_spaces("Race"@))) by {
        reveal_strlit("Race");
        reveal_strlit("icon_race");
        assert("Race"@ =~= seq!['R', 'a', 'c', 'e']);
        assert("icon_race"@ =~= seq!['i', 'c', 'o', 'n', '_', 'r', 'a', 'c', 'e']);
        lemma_without_spaces_unchanged(seq!['R', 'a', 'c', 'e']);
        assert(ascii_lowercase(seq!['R', 'a', 'c', 'e']) =~= seq!['r', 'a', 'c', 'e']);
        assert(seq!['i', 'c', 'o', 'n', '_'] + seq!['r', 'a', 'c', 'e'] =~= seq!['i', 'c', 'o', 'n', '_', 'r', 'a', 'c', 'e']);
    }
    assert("icon_battlerace"@ == "icon_"@ + ascii_lowercase(without_spaces("Battle Race"@))) by {
        reveal_strlit("Battle Race");
        reveal_strlit("icon_battlerace");
        assert("Battle Race"@ =~= seq!['B', 'a', 't', 't', 'l', 'e', ' ', 'R', 'a', 'c', 'e']);
        assert("icon_battlerace"@ =~= seq!['i', 'c', 'o', 'n', '_', 'b', 'a', 't', 't', 'l', 'e', 'r', 'a', 'c', 'e']);
        assert(seq!['B', 'a', 't', 't', 'l', 'e', ' ', 'R', 'a', 'c', 'e'] =~= seq!['B', 'a', 't', 't', 'l', 'e'] + seq![' '] + seq!['R', 'a', 'c', 'e']);
        lemma_without_spaces_concat(seq!['B', 'a', 't', 't', 'l', 'e'] + seq![' '], seq!['R', 'a', 'c', 'e']);
        lemma_without_spaces_concat(seq!['B', 'a', 't', 't', 'l', 'e'], seq![' ']);
        lemma_without_spaces_unchanged(seq!['B', 'a', 't', 't', 'l', 'e']);
        lemma_without_spaces_unchanged(seq!['R', 'a', 'c', 'e']);
        assert(without_spaces(seq![' ']) =~= Seq::<char>::empty()) by {
            reveal_with_fuel(without_spaces, 2);
            assert(seq![' '].drop_first() =~= Seq::<char>::empty());
        }
        assert(without_spaces(seq!['B', 'a', 't', 't', 'l', 'e', ' ', 'R', 'a', 'c', 'e']) =~= seq!['B', 'a', 't', 't', 'l', 'e', 'R', 'a', 'c', 'e']);
        assert(ascii_lowercase(seq!['B', 'a', 't', 't', 'l', 'e', 'R', 'a', 'c', 'e']) =~= seq!['b', 'a', 't', 't', 'l', 'e', 'r', 'a', 'c', 'e']);
        assert(seq!['i', 'c', 'o', 'n', '_'] + seq!['b', 'a', 't', 't', 'l', 'e', 'r', 'a', 'c', 'e'] =~= seq!['i', 'c', 'o', 'n', '_', 'b', 'a', 't', 't', 'l', 'e', 'r', 'a', 'c', 'e']);
    }
    assert("icon_attack"@ == "icon_"@ + ascii_lowercase(without_spaces("Attack"@))) by {
        reveal_strlit("Attack");
        reveal_strlit("icon_attack");
        assert("Attack"@ =~= seq!['A', 't', 't', 'a', 'c', 'k']);
        assert("icon_attack"@ =~= seq!['i', 'c', 'o', 'n', '_', 'a', 't', 't', 'a', 'c', 'k']);
        lemma_without_spaces_unchanged(seq!['A', 't', 't', 'a', 'c', 'k']);
        assert(ascii_lowercase(seq!['A', 't', 't', 'a', 'c', 'k']) =~= seq!['a', 't', 't', 'a', 'c', 'k']);
        assert(seq!['i', 'c', 'o', 'n', '_'] + seq!['a', 't', 't', 'a', 'c', 'k'] =~= seq!['i', 'c', 'o', 'n', '_', 'a', 't', 't', 'a', 'c', 'k']);
    }
    assert("icon_survival"@ == "icon_"@ + ascii_lowercase(without_spaces("Survival"@))) by {
        reveal_strlit("Survival");
        reveal_strlit("icon_survival");
        assert("Survival"@ =~= seq!['S', 'u', 'r', 'v', 'i', 'v', 'a', 'l']);
        assert("icon_survival"@ =~= seq!['i', 'c', 'o', 'n', '_', 's', 'u', 'r', 'v', 'i', 'v', 'a', 'l']);
        lemma_without_spaces_unchanged(seq!['S', 'u', 'r', 'v', 'i', 'v', 'a', 'l']);
        assert(ascii_lowercase(seq!['S', 'u', 'r', 'v', 'i', 'v', 'a', 'l']) =~= seq!['s', 'u', 'r', 'v', 'i', 'v', 'a', 'l']);
        assert(seq!['i', 'c', 'o', 'n', '_'] + seq!['s', 'u', 'r', 'v', 'i', 'v', 'a', 'l'] =~= seq!['i', 'c', 'o', 'n', '_', 's', 'u', 'r', 'v', 'i', 'v', 'a', 'l']);
    }
    assert("icon_hunter"@ == "icon_"@ + ascii_lowercase(without_spaces("Hunter"@))) by {
        reveal_strlit("Hunter");
        reveal_strlit("icon_hunter");
        assert("Hunter"@ =~= seq!['H', 'u', 'n', 't', 'e', 'r']);
        assert("icon_hunter"@ =~= seq!['i', 'c', 'o', 'n', '_', 'h', 'u', 'n', 't', 'e', 'r']);
        lemma_without_spaces_unchanged(seq!['H', 'u', 'n', 't', 'e', 'r']);
        assert(ascii_lowercase(seq!['H', 'u', 'n', 't', 'e', 'r']) =~= seq!['h', 'u', 'n', 't', 'e', 'r']);
        assert(seq!['i', 'c', 'o', 'n', '_'] + seq!['h', 'u', 'n', 't', 'e', 'r'] =~= seq!['i', 'c', 'o', 'n', '_', 'h', 'u', 'n', 't', 'e', 'r']);
    }
    assert("icon_arena"@ == "icon_"@ + ascii_lowercase(without_spaces("Arena"@))) by {
        reveal_strlit("Arena");
        reveal_strlit("icon_arena");
        assert("Arena"@ =~= seq!['A', 'r', 'e', 'n', 'a']);
        assert("icon_arena"@ =~= seq!['i', 'c', 'o', 'n', '_', 'a', 'r', 'e', 'n', 'a']);
        lemma_without_spaces_unchanged(seq!['A', 'r', 'e', 'n', 'a']);
        assert(ascii_lowercase(seq!['A', 'r', 'e', 'n', 'a']) =~= seq!['a', 'r', 'e', 'n', 'a']);
        assert(seq!['i', 'c', 'o', 'n', '_'] + seq!['a', 'r', 'e', 'n', 'a'] =~= seq!['i', 'c', 'o', 'n', '_', 'a', 'r', 'e', 'n', 'a']);
    }
    assert("icon_disruptor"@ == "icon_"@ + ascii_lowercase(without_spaces("Disruptor"@))) by {
        reveal_strlit("Disruptor");
        reveal_strlit("icon_disruptor");
        assert("Disruptor"@ =~= seq!['D', 'i', 's', 'r', 'u', 'p', 't', 'o', 'r']);
        assert("icon_disruptor"@ =~= seq!['i', 'c', 'o', 'n', '_', 'd', 'i', 's', 'r', 'u', 'p', 't', 'o', 'r']);
        lemma_without_spaces_unchanged(seq!['D', 'i', 's', 'r', 'u', 'p', 't', 'o', 'r']);
        assert(ascii_lowercase(seq!['D', 'i', 's', 'r', 'u', 'p', 't', 'o', 'r']) =~= seq!['d', 'i', 's', 'r', 'u', 'p', 't', 'o', 'r']);
        assert(seq!['i', 'c', 'o', 'n', '_'] + seq!['d', 'i', 's', 'r', 'u', 'p', 't', 'o', 'r'] =~= seq!['i', 'c', 'o', 'n', '_', 'd', 'i', 's', 'r', 'u', 'p', 't', 'o', 'r']);
    }
}

/// The icon of each named mission mode is "icon_" followed by the mode's display name in ASCII
/// lowercase without spaces.
pub proof fn law_mode_icon_follows_mode_name(mode: Seq<char>)
    requires
        mode_names().dom().contains(mode),
        mode != ""@,
    ensures
        mode_icons().dom().contains(mode),
        mode_icons()[mode] == "icon_"@ + ascii_lowercase(without_spaces(mode_names()[mode])),
{
    law_every_named_mode_has_an_icon();
    lemma_mode_keys();
    lemma_icon_texts();
}

/// The level table is the game's list: a name is a level exactly when it is one of the 22 names
/// below (the empty name among them), and each level has the display name listed beside it.
pub proof fn law_level_names_as_listed(name: Seq<char>)
    ensures
        level_names().dom().contains(name) <==> {
            ||| name == "TRACK_A_OilRig"@
            ||| name == "TRACK_B_OilRig"@
            ||| name == "TRACK_A_TokyoXtreme"@
            ||| name == "TRACK_B_TokyoXtreme"@
            ||| name == "TRACK_C_TokyoXtreme"@
            ||| name == "TRACK_A_Air"@
            ||| name == "TRACK_C_Air"@
            ||| name == "TRACK_A_Italy"@
            ||| name == "TRACK_B_Italy"@
            ||| name == "TRACK_C_Italy"@
            ||| name == "TRACK_A_London"@
            ||| name == "TRACK_B_London"@
            ||| name == "TRACK_A_RadiatorSprings"@
            ||| name == "TRACK_B_RadiatorSprings"@
            ||| name == "TRACK_C_RadiatorSprings"@
            ||| name == "Location_MI_Oil"@
            ||| name == "Location_MI_AIR"@
            ||| name == "Location_MI_Italy"@
            ||| name == "Location_MI_London"@
            ||| name == "Location_MI_Tokyo"@
            ||| name == "Location_MI_Radiator"@
            ||| name == ""@
        },
        level_names().dom().contains("TRACK_A_OilRig"@) && level_names()["TRACK_A_OilRig"@] == "Pipeline Sprint"@,
        level_names().dom().contains("TRACK_B_OilRig"@) && level_names()["TRACK_B_OilRig"@] == "Oil Rig Run"@,
        level_names().dom().contains("TRACK_A_TokyoXtreme"@) && level_names()["TRACK_A_TokyoXtreme"@] == "Ginza Sprint"@,
        level_names().dom().contains("TRACK_B_TokyoXtreme"@) && level_names()["TRACK_B_TokyoXtreme"@] == "Vista Run"@,
        level_names().dom().contains("TRACK_C_TokyoXtreme"@) && level_names()["TRACK_C_TokyoXtreme"@] == "Imperial Tour"@,
        level_names().dom().contains("TRACK_A_Air"@) && level_names()["TRACK_A_Air"@] == "Terminal Sprint"@,
        level_names().dom().contains("TRACK_C_Air"@) && level_names()["TRACK_C_Air"@] == "Runway Tour"@,
        level_names().dom().contains("TRACK_A_Italy"@) && level_names()["TRACK_A_Italy"@] == "Harbor Sprint"@,
        level_names().dom().contains("TRACK_B_Italy"@) && level_names()["TRACK_B_Italy"@] == "Mountain Run"@,
        level_names().dom().contains("TRACK_C_Italy"@) && level_names()["TRACK_C_Italy"@] == "Casino Tour"@,
        level_names().dom().contains("TRACK_A_London"@) && level_names()["TRACK_A_London"@] == "Buckingham Sprint"@,
        level_names().dom().contains("TRACK_B_London"@) && level_names()["TRACK_B_London"@] == "Hyde Tour"@,
        level_names().dom().contains("TRACK_A_RadiatorSprings"@) && level_names()["TRACK_A_RadiatorSprings"@] == "Radiator Sprint"@,
        level_names().dom().contains("TRACK_B_RadiatorSprings"@) && level_names()["TRACK_B_RadiatorSprings"@] == "Canyon Run"@,
        level_names().dom().contains("TRACK_C_RadiatorSprings"@) && level_names()["TRACK_C_RadiatorSprings"@] == "Timberline Sprint"@,
        level_names().dom().contains("Location_MI_Oil"@) && level_names()["Location_MI_Oil"@] == "Oil Rig Arena"@,
        level_names().dom().contains("Location_MI_AIR"@) && level_names()["Location_MI_AIR"@] == "Airport Arena"@,
        level_names().dom().contains("Location_MI_Italy"@) && level_names()["Location_MI_Italy"@] == "Italy Arena"@,
        level_names().dom().contains("Location_MI_London"@) && level_names()["Location_MI_London"@] == "London Arena"@,
        level_names().dom().contains("Location_MI_Tokyo"@) && level_names()["Location_MI_Tokyo"@] == "Tokyo Arena"@,
        level_names().dom().contains("Location_MI_Radiator"@) && level_names()["Location_MI_Radiator"@] == "Radiator Springs Arena"@,
        level_names().dom().contains(""@) && level_names()[""@] == ""@,
{
    lemma_level_keys();
}

/// The mission mode table is the game's list: a name is a mode exactly when it is one of the
/// 8 names below (the empty name among them), and each mode has the display name listed beside it.
pub proof fn law_mode_names_as_listed(name: Seq<char>)
    ensures
        mode_names().dom().contains(name) <==> {
            ||| name == "RACE"@
            ||| name == "BATTLE_RACE"@
            ||| name == "TAKEDOWN"@
            ||| name == "COLLECT"@
            ||| name == "HUNTER"@
            ||| name == "ARENA"@
            ||| name == "BOMB"@
            ||| name == ""@
        },
        mode_names().dom().contains("RACE"@) && mode_names()["RACE"@] == "Race"@,
        mode_names().dom().contains("BATTLE_RACE"@) && mode_names()["BATTLE_RACE"@] == "Battle Race"@,
        mode_names().dom().contains("TAKEDOWN"@) && mode_names()["TAKEDOWN"@] == "Attack"@,
        mode_names().dom().contains("COLLECT"@) && mode_names()["COLLECT"@] == "Survival"@,
        mode_names().dom().contains("HUNTER"@) && mode_names()["HUNTER"@] == "Hunter"@,
        mode_names().dom().contains("ARENA"@) && mode_names()["ARENA"@] == "Arena"@,
        mode_names().dom().contains("BOMB"@) && mode_names()["BOMB"@] == "Disruptor"@,
        mode_names().dom().contains(""@) && mode_names()[""@] == ""@,
{
    lemma_mode_keys();
}

/// The mode icon table is the game's list: a name has an icon exactly when it is one of the
/// 8 names below, and each has the icon key listed beside it.
pub proof fn law_mode_icons_as_listed(name: Seq<char>)
    ensures
        mode_icons().dom().contains(name) <==> {
            ||| name == "RACE"@
            ||| name == "BATTLE_RACE"@
            ||| name == "TAKEDOWN"@
            ||| name == "COLLECT"@
            ||| name == "HUNTER"@
            ||| name == "ARENA"@
            ||| name == "BOMB"@
            ||| name == ""@
        },
        mode_icons().dom().contains("RACE"@) && mode_icons()["RACE"@] == "icon_race"@,
        mode_icons().dom().contains("BATTLE_RACE"@) && mode_icons()["BATTLE_RACE"@] == "icon_battlerace"@,
        mode_icons().dom().contains("TAKEDOWN"@) && mode_icons()["TAKEDOWN"@] == "icon_attack"@,
        mode_icons().dom().contains("COLLECT"@) && mode_icons()["COLLECT"@] == "icon_survival"@,
        mode_icons().dom().contains("HUNTER"@) && mode_icons()["HUNTER"@] == "icon_hunter"@,
        mode_icons().dom().contains("ARENA"@) && mode_icons()["ARENA"@] == "icon_arena"@,
        mode_icons().dom().contains("BOMB"@) && mode_icons()["BOMB"@] == "icon_disruptor"@,
        mode_icons().dom().contains(""@) && mode_icons()[""@] == ""@,
{
    lemma_mode_keys();
}

} // verus!
