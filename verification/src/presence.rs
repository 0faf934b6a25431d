use vstd::prelude::*;

use crate::helpers::maps::{
    law_level_names_as_listed, law_mode_names_as_listed, lemma_entries_make_the_maps, level_names,
    lookup_or_unknown, map_level_names, map_mode_names, mode_names,
    named_or_unknown,
};
use crate::text::{
    joined_text, lowercase, owned_text, strip_repeated_prefix, text_from_bytes_lossy,
    trim_start_matches, unicode_lowercase, utf8_lossy,
};

verus! {

/// The display name of a level, or "Unknown level " followed by its internal name.
pub fn get_display_name(internal_name: &str) -> (r: String)
    ensures
        r@ == named_or_unknown(level_names(), internal_name@, "Unknown level "@),
{
    let table = map_level_names();
    proof {
        lemma_entries_make_the_maps();
    }
    lookup_or_unknown(&table, internal_name, "Unknown level ")
}

/// The display name of a mission mode, or "Unknown level " followed by its internal name
/// (the presence text uses this wording for an unknown mode too).
pub fn get_mode_name(internal_name: &str) -> (r: String)
    ensures
        r@ == named_or_unknown(mode_names(), internal_name@, "Unknown level "@),
{
    let table = map_mode_names();
    proof {
        lemma_entries_make_the_maps();
    }
    lookup_or_unknown(&table, internal_name, "Unknown level ")
}

/// What the game reports to the presence worker.
#[derive(Debug)]
pub enum RPCEvent {
    InFrontend(bool),
    CurrentLevel(String),
    MissionMode(String),
}

/// The event that reports the level the game set, from the level's name as the game's bytes.
pub fn level_event(level: &[u8]) -> (e: RPCEvent)
    ensures
        e@ == EventView::CurrentLevel(utf8_lossy(level@)),
{
    RPCEvent::CurrentLevel(text_from_bytes_lossy(level))
}

/// The event that reports the mission mode the game looked up, from the mode's name as the
/// game's bytes.
pub fn mission_mode_event(mission_mode: &[u8]) -> (e: RPCEvent)
    ensures
        e@ == EventView::MissionMode(utf8_lossy(mission_mode@)),
{
    RPCEvent::MissionMode(text_from_bytes_lossy(mission_mode))
}

/// An [`RPCEvent`] with its texts taken as character sequences.
pub enum EventView {
    InFrontend(bool),
    CurrentLevel(Seq<char>),
    MissionMode(Seq<char>),
}

impl View for RPCEvent {
    type V = EventView;

    open spec fn view(&self) -> EventView {
        match self {
            RPCEvent::InFrontend(b) => EventView::InFrontend(*b),
            RPCEvent::CurrentLevel(s) => EventView::CurrentLevel(s@),
            RPCEvent::MissionMode(s) => EventView::MissionMode(s@),
        }
    }
}

/// What the presence worker knows of the game.
pub struct RPCState {
    in_frontend: bool,
    current_level: String,
    mission_mode: String,
}

/// The contents of an [`RPCState`].
#[verifier::ext_equal]
pub struct StateView {
    pub in_frontend: bool,
    pub current_level: Seq<char>,
    pub mission_mode: Seq<char>,
}

impl View for RPCState {
    type V = StateView;

    closed spec fn view(&self) -> StateView {
        StateView {
            in_frontend: self.in_frontend,
            current_level: self.current_level@,
            mission_mode: self.mission_mode@,
        }
    }
}

/// The state after an event: the event sets the one field it reports and leaves the others.
pub open spec fn after_event(s: StateView, e: EventView) -> StateView {
    match e {
        EventView::InFrontend(b) => StateView {
            in_frontend: b,
            current_level: s.current_level,
            mission_mode: s.mission_mode,
        },
        EventView::CurrentLevel(level) => StateView {
            in_frontend: s.in_frontend,
            current_level: level,
            mission_mode: s.mission_mode,
        },
        EventView::MissionMode(mode) => StateView {
            in_frontend: s.in_frontend,
            current_level: s.current_level,
            mission_mode: mode,
        },
    }
}

impl Default for RPCState {
    fn default() -> (s: Self)
        ensures
            s@ == (StateView {
                in_frontend: false,
                current_level: Seq::<char>::empty(),
                mission_mode: Seq::<char>::empty(),
            }),
    {
        RPCState { in_frontend: false, current_level: String::new(), mission_mode: String::new() }
    }
}

/// The kinds of activity that Discord shows.
#[derive(Debug, Clone, Copy, PartialEq, Eq, Structural)]
pub enum ActivityKind {
    Playing,
    Listening,
    Watching,
    Competing,
}

/// The rich presence activity to show: its kind, a state line, and in a level also a details
/// line and a large image.
#[derive(Debug, PartialEq, Eq)]
pub struct Activity {
    pub kind: ActivityKind,
    pub state: String,
    pub details: Option<String>,
    pub large_image: Option<String>,
}

/// An [`Activity`] with its texts taken as character sequences.
pub struct ActivityView {
    pub kind: ActivityKind,
    pub state: Seq<char>,
    pub details: Option<Seq<char>>,
    pub large_image: Option<Seq<char>>,
}

pub open spec fn option_text_view(o: Option<String>) -> Option<Seq<char>> {
    match o {
        Some(s) => Some(s@),
        None => None,
    }
}

impl View for Activity {
    type V = ActivityView;

    open spec fn view(&self) -> ActivityView {
        ActivityView {
            kind: self.kind,
            state: self.state@,
            details: option_text_view(self.details),
            large_image: option_text_view(self.large_image),
        }
    }
}

/// The activity shown outside a level: the game is being played, in its menus.
pub open spec fn menus_activity() -> ActivityView {
    ActivityView {
        kind: ActivityKind::Playing,
        state: "In Menus"@,
        details: None,
        large_image: None,
    }
}

/// The activity shown in a level, with the image key that the level's name gives.
pub open spec fn level_activity_view(level: Seq<char>, mode: Seq<char>, image_key: Seq<char>) -> ActivityView {
    ActivityView {
        kind: ActivityKind::Playing,
        state: "In "@ + named_or_unknown(mode_names(), mode, "Unknown level "@),
        details: Some(named_or_unknown(level_names(), level, "Unknown level "@)),
        large_image: Some(image_key),
    }
}

/// The image key of a level: its internal name without any leading "Location_", in lowercase.
pub open spec fn level_image_key(level: Seq<char>) -> Seq<char> {
    unicode_lowercase(trim_start_matches(level, "Location_"@))
}

/// The activity for what the worker knows: the menus while in the frontend or with no level,
/// else the level's activity.
pub open spec fn activity_of(in_frontend: bool, level: Seq<char>, mode: Seq<char>) -> ActivityView {
    if in_frontend || level.len() == 0 {
        menus_activity()
    } else {
        level_activity_view(level, mode, level_image_key(level))
    }
}

/// The activity shown outside a level.
pub fn menus() -> (a: Activity)
    ensures
        a@ == menus_activity(),
{
    Activity {
        kind: ActivityKind::Playing,
        state: owned_text("In Menus"),
        details: None,
        large_image: None,
    }
}

/// The activity shown in `level` while playing `mode`, with `image_key` as its large image.
pub fn level_activity(level: &str, mode: &str, image_key: String) -> (a: Activity)
    ensures
        a@ == level_activity_view(level@, mode@, image_key@),
{
    let mode_name = get_mode_name(mode);
    let state = joined_text("In ", mode_name.as_str());
    let details = get_display_name(level);
    Activity {
        kind: ActivityKind::Playing,
        state,
        details: Some(details),
        large_image: Some(image_key),
    }
}

/// The activity to publish for what the worker knows of the game.
pub fn activity_for(in_frontend: bool, current_level: &str, mission_mode: &str) -> (a: Activity)
    ensures
        a@ == activity_of(in_frontend, current_level@, mission_mode@),
{
    if in_frontend || current_level.is_empty() {
        menus()
    } else {
        let stripped = strip_repeated_prefix(current_level, "Location_");
        let image_key = lowercase(stripped);
        level_activity(current_level, mission_mode, image_key)
    }
}

/// What the worker's channel gave it.
pub enum Received {
    /// An event from the game.
    Event(RPCEvent),
    /// Nothing came within the wait.
    Timeout,
    /// The game's side of the channel is gone.
    Disconnected,
}

/// What the worker does next.
#[derive(Debug, PartialEq, Eq)]
pub enum WorkerAction {
    /// Set this activity on Discord.
    Publish(Activity),
    /// Nothing to do; wait for the next event.
    Wait,
    /// Stop the worker.
    Stop,
}

impl RPCState {
    /// Whether the game is in its frontend (menus).
    pub fn in_frontend(&self) -> (r: bool)
        ensures
            r == self@.in_frontend,
    {
        self.in_frontend
    }

    /// The internal name of the current level.
    pub fn current_level(&self) -> (r: &str)
        ensures
            r@ == self@.current_level,
    {
        self.current_level.as_str()
    }

    /// The internal name of the current mission mode.
    pub fn mission_mode(&self) -> (r: &str)
        ensures
            r@ == self@.mission_mode,
    {
        self.mission_mode.as_str()
    }

    /// Records what an event reports.
    pub fn apply(&mut self, event: RPCEvent)
        ensures
            final(self)@ == after_event(old(self)@, event@),
    {
        match event {
            RPCEvent::InFrontend(frontend) => {
                self.in_frontend = frontend;
            },
            RPCEvent::CurrentLevel(current_level) => {
                self.current_level = current_level;
            },
            RPCEvent::MissionMode(mission_mode) => {
                self.mission_mode = mission_mode;
            },
        }
    }

    /// The activity for what is known now.
    pub fn activity(&self) -> (a: Activity)
        ensures
            a@ == activity_of(self@.in_frontend, self@.current_level, self@.mission_mode),
    {
        activity_for(self.in_frontend, self.current_level.as_str(), self.mission_mode.as_str())
    }

    /// One turn of the worker: an event is recorded and the new activity published; a timeout
    /// changes nothing; a closed channel stops the worker.
    pub fn step(&mut self, received: Received) -> (action: WorkerAction)
        ensures
            match received {
                Received::Event(e) => {
                    &&& final(self)@ == after_event(old(self)@, e@)
                    &&& action matches WorkerAction::Publish(a)
                    &&& a@ == activity_of(final(self)@.in_frontend, final(self)@.current_level, final(self)@.mission_mode)
                },
                Received::Timeout => final(self)@ == old(self)@ && action is Wait,
                Received::Disconnected => final(self)@ == old(self)@ && action is Stop,
            },
    {
        match received {
            Received::Event(event) => {
                self.apply(event);
                WorkerAction::Publish(self.activity())
            },
            Received::Timeout => WorkerAction::Wait,
            Received::Disconnected => WorkerAction::Stop,
        }
    }
}

/// Whether two events report the same thing (frontend, level or mode).
pub open spec fn same_kind(a: EventView, b: EventView) -> bool {
    match (a, b) {
        (EventView::InFrontend(_), EventView::InFrontend(_)) => true,
        (EventView::CurrentLevel(_), EventView::CurrentLevel(_)) => true,
        (EventView::MissionMode(_), EventView::MissionMode(_)) => true,
        _ => false,
    }
}

/// The activity for a state.
pub open spec fn state_activity(s: StateView) -> ActivityView {
    activity_of(s.in_frontend, s.current_level, s.mission_mode)
}

/// Entering the frontend shows the menus, whatever level and mode were known before.
pub proof fn law_entering_frontend_shows_menus(s: StateView)
    ensures
        state_activity(after_event(s, EventView::InFrontend(true))) == menus_activity(),
{
}

/// While no level is known, the menus are shown, whatever the frontend flag and mode.
pub proof fn law_no_level_shows_menus(s: StateView)
    requires
        s.current_level.len() == 0,
    ensures
        state_activity(s) == menus_activity(),
{
}

/// Outside the frontend with a level known, the activity names the level and the mode and
/// shows the level's image.
pub proof fn law_level_shown_outside_frontend(s: StateView)
    requires
        !s.in_frontend,
        s.current_level.len() > 0,
    ensures
        state_activity(s).details == Some(
            named_or_unknown(level_names(), s.current_level, "Unknown level "@),
        ),
        state_activity(s).state == "In "@ + named_or_unknown(mode_names(), s.mission_mode, "Unknown level "@),
        state_activity(s).large_image == Some(level_image_key(s.current_level)),
{
}

/// Recording the same event twice leaves the state as recording it once.
pub proof fn law_repeated_event_changes_nothing(s: StateView, e: EventView)
    ensures
        after_event(after_event(s, e), e) == after_event(s, e),
{
}

/// Of two events of the same kind, the later one alone decides the state.
pub proof fn law_later_event_of_a_kind_wins(s: StateView, first: EventView, second: EventView)
    requires
        same_kind(first, second),
    ensures
        after_event(after_event(s, first), second) == after_event(s, second),
{
}

/// Events of different kinds may arrive in either order with the same outcome.
pub proof fn law_events_of_different_kinds_commute(s: StateView, a: EventView, b: EventView)
    requires
        !same_kind(a, b),
    ensures
        after_event(after_event(s, a), b) == after_event(after_event(s, b), a),
{
}

/// Outside the frontend, the details line of a level's activity is the display name that the
/// game's list gives the level, whatever the mode.
pub proof fn law_activity_names_the_level_as_listed(mode: Seq<char>)
    ensures
        activity_of(false, "TRACK_A_OilRig"@, mode).details == Some("Pipeline Sprint"@),
        activity_of(false, "TRACK_B_OilRig"@, mode).details == Some("Oil Rig Run"@),
        activity_of(false, "TRACK_A_TokyoXtreme"@, mode).details == Some("Ginza Sprint"@),
        activity_of(false, "TRACK_B_TokyoXtreme"@, mode).details == Some("Vista Run"@),
        activity_of(false, "TRACK_C_TokyoXtreme"@, mode).details == Some("Imperial Tour"@),
        activity_of(false, "TRACK_A_Air"@, mode).details == Some("Terminal Sprint"@),
        activity_of(false, "TRACK_C_Air"@, mode).details == Some("Runway Tour"@),
        activity_of(false, "TRACK_A_Italy"@, mode).details == Some("Harbor Sprint"@),
        activity_of(false, "TRACK_B_Italy"@, mode).details == Some("Mountain Run"@),
        activity_of(false, "TRACK_C_Italy"@, mode).details == Some("Casino Tour"@),
        activity_of(false, "TRACK_A_London"@, mode).details == Some("Buckingham Sprint"@),
        activity_of(false, "TRACK_B_London"@, mode).details == Some("Hyde Tour"@),
        activity_of(false, "TRACK_A_RadiatorSprings"@, mode).details == Some("Radiator Sprint"@),
        activity_of(false, "TRACK_B_RadiatorSprings"@, mode).details == Some("Canyon Run"@),
        activity_of(false, "TRACK_C_RadiatorSprings"@, mode).details == Some("Timberline Sprint"@),
        activity_of(false, "Location_MI_Oil"@, mode).details == Some("Oil Rig Arena"@),
        activity_of(false, "Location_MI_AIR"@, mode).details == Some("Airport Arena"@),
        activity_of(false, "Location_MI_Italy"@, mode).details == Some("Italy Arena"@),
        activity_of(false, "Location_MI_London"@, mode).details == Some("London Arena"@),
        activity_of(false, "Location_MI_Tokyo"@, mode).details == Some("Tokyo Arena"@),
        activity_of(false, "Location_MI_Radiator"@, mode).details == Some("Radiator Springs Arena"@),
{
    law_level_names_as_listed(Seq::<char>::empty());
    reveal_strlit("TRACK_A_OilRig");
    reveal_strlit("TRACK_B_OilRig");
    reveal_strlit("TRACK_A_TokyoXtreme");
    reveal_strlit("TRACK_B_TokyoXtreme");
    reveal_strlit("TRACK_C_TokyoXtreme");
    reveal_strlit("TRACK_A_Air");
    reveal_strlit("TRACK_C_Air");
    reveal_strlit("TRACK_A_Italy");
    reveal_strlit("TRACK_B_Italy");
    reveal_strlit("TRACK_C_Italy");
    reveal_strlit("TRACK_A_London");
    reveal_strlit("TRACK_B_London");
    reveal_strlit("TRACK_A_RadiatorSprings");
    reveal_strlit("TRACK_B_RadiatorSprings");
    reveal_strlit("TRACK_C_RadiatorSprings");
    reveal_strlit("Location_MI_Oil");
    reveal_strlit("Location_MI_AIR");
    reveal_strlit("Location_MI_Italy");
    reveal_strlit("Location_MI_London");
    reveal_strlit("Location_MI_Tokyo");
    reveal_strlit("Location_MI_Radiator");
}

/// Outside the frontend and in a level, the state line is "In " followed by the display name
/// that the game's list gives the mission mode.
pub proof fn law_activity_names_the_mode_as_listed(level: Seq<char>)
    requires
        level.len() > 0,
    ensures
        activity_of(false, level, "RACE"@).state == "In Race"@,
        activity_of(false, level, "BATTLE_RACE"@).state == "In Battle Race"@,
        activity_of(false, level, "TAKEDOWN"@).state == "In Attack"@,
        activity_of(false, level, "COLLECT"@).state == "In Survival"@,
        activity_of(false, level, "HUNTER"@).state == "In Hunter"@,
        activity_of(false, level, "ARENA"@).state == "In Arena"@,
        activity_of(false, level, "BOMB"@).state == "In Disruptor"@,
        activity_of(false, level, ""@).state == "In "@,
{
    law_mode_names_as_listed(Seq::<char>::empty());
    reveal_strlit("Race");
    reveal_strlit("Battle Race");
    reveal_strlit("Attack");
    reveal_strlit("Survival");
    reveal_strlit("Hunter");
    reveal_strlit("Arena");
    reveal_strlit("Disruptor");
    reveal_strlit("In ");
    assert("In "@ + "Race"@ =~= "In Race"@) by {
        reveal_strlit("In Race");
    }
    assert("In "@ + "Battle Race"@ =~= "In Battle Race"@) by {
        reveal_strlit("In Battle Race");
    }
    assert("In "@ + "Attack"@ =~= "In Attack"@) by {
        reveal_strlit("In Attack");
    }
    assert("In "@ + "Survival"@ =~= "In Survival"@) by {
        reveal_strlit("In Survival");
    }
    assert("In "@ + "Hunter"@ =~= "In Hunter"@) by {
        reveal_strlit("In Hunter");
    }
    assert("In "@ + "Arena"@ =~= "In Arena"@) by {
        reveal_strlit("In Arena");
    }
    assert("In "@ + "Disruptor"@ =~= "In Disruptor"@) by {
        reveal_strlit("In Disruptor");
    }
    assert("In "@ + ""@ =~= "In "@) by {
        reveal_strlit("");
    }
}

/// Outside the frontend, a level's image key is its name in lowercase, with one leading
/// "Location_" dropped when the rest does not begin with another.
pub proof fn law_image_key_drops_location_prefix(level: Seq<char>, mode: Seq<char>)
    requires
        level.len() > 0,
    ensures
        !(level.len() >= 9 && level.take(9) == "Location_"@) ==> activity_of(false, level, mode).large_image
            == Some(unicode_lowercase(level)),
        ({
            let full = "Location_"@ + level;
            !(level.len() >= 9 && level.take(9) == "Location_"@) ==> activity_of(false, full, mode).large_image
                == Some(unicode_lowercase(level))
        }),
{
    reveal_strlit("Location_");
    let full = "Location_"@ + level;
    assert(full.take(9) =~= "Location_"@);
    assert(full.skip(9) =~= level);
    assert(full.len() > 0);
}

} // verus!
