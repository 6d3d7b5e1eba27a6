//! The application's state and how it reacts to messages and events.
//!
//! `update` and `process_event` decide; what they ask of the outside world
//! (to search for the typed text, to write the configuration) they return as
//! a `Command` for the caller to carry out.
use vstd::prelude::*;

use crate::config::Config;
use crate::input::{after_delete, after_enter, after_move_left, after_move_right, Input};
use crate::keys::{handle_key, key_message, KeyInput, Message};
use crate::list::{next_selection, previous_selection, ListSelection};
use crate::weather::{entry_text, list_entries, Feature, GeoLocation};

verus! {

/// Whether the application keeps running.
#[derive(Clone, Copy, Debug, PartialEq, Eq, Structural)]
pub enum State {
    Running,
    Done,
}

/// The screen on show: the city prompt, or the main screen once a city is
/// chosen.
#[derive(Clone, Copy, Debug, PartialEq, Eq, Structural)]
pub enum CurrentScreen {
    Prompt,
    Main,
}

/// The state of the city prompt: the selection in the result list, the
/// lines of that list, the places they show, and the search text.
pub struct InitPromptState {
    pub list_state: ListSelection,
    pub list_entry: Vec<String>,
    pub geo_locations: Option<GeoLocation>,
    pub input: Input,
}

/// The whole state of the application. `current_location` holds the
/// longitude and latitude of the chosen city as bit patterns of 64-bit
/// floats.
pub struct Model {
    pub state: State,
    pub current_screen: CurrentScreen,
    pub init_prompt_state: InitPromptState,
    pub current_city: String,
    pub current_location: (u64, u64),
}

/// Something that happened: a key event, a resize of the terminal, or the
/// answer of the location search.
pub enum Event {
    Input(KeyInput),
    Resize,
    GeocodeResult(GeoLocation),
    GeocodeError(String),
}

/// What the terminal reports: a key, a new size, or anything else.
pub enum TerminalEvent {
    Key(KeyInput),
    Resize(u16, u16),
    Other,
}

/// The event the application takes from what the terminal reports: keys and
/// resizes are passed on, anything else is dropped.
pub fn from_terminal_event(terminal_event: TerminalEvent) -> (event: Option<Event>)
    ensures
        match terminal_event {
            TerminalEvent::Key(key) => event matches Some(Event::Input(k)) && k == key,
            TerminalEvent::Resize(_, _) => event matches Some(Event::Resize),
            TerminalEvent::Other => event is None,
        },
{
    match terminal_event {
        TerminalEvent::Key(key) => Some(Event::Input(key)),
        TerminalEvent::Resize(_, _) => Some(Event::Resize),
        TerminalEvent::Other => None,
    }
}

/// What the caller is asked to do after a step: nothing, search for places
/// matching the text, or write the configuration.
pub enum Command {
    Nothing,
    Search(String),
    SaveConfig(Config),
}

/// `new` is `old` with the search text `text` and the cursor at `ci`.
pub open spec fn with_input(old: Model, text: Seq<char>, ci: int, new: Model) -> bool {
    &&& new.state == old.state
    &&& new.current_screen == old.current_screen
    &&& new.init_prompt_state.list_state == old.init_prompt_state.list_state
    &&& new.init_prompt_state.list_entry == old.init_prompt_state.list_entry
    &&& new.init_prompt_state.geo_locations == old.init_prompt_state.geo_locations
    &&& new.current_city == old.current_city
    &&& new.current_location == old.current_location
    &&& new.init_prompt_state.input.user_input@ == text
    &&& new.init_prompt_state.input.character_index == ci
}

/// `m` with the list selection `selected`.
pub open spec fn with_selection(m: Model, selected: Option<usize>) -> Model {
    Model {
        init_prompt_state: InitPromptState {
            list_state: ListSelection { selected },
            ..m.init_prompt_state
        },
        ..m
    }
}

/// The place that the selection points at, if the selection points into the
/// search results.
pub open spec fn selected_feature(m: Model) -> Option<Feature> {
    match m.init_prompt_state.list_state.selected {
        Some(i) => match m.init_prompt_state.geo_locations {
            Some(geo) => if i < geo.features@.len() {
                Some(geo.features@[i as int])
            } else {
                None
            },
            None => None,
        },
        None => None,
    }
}

/// `m` with the selected place, if any, as the current city.
pub open spec fn after_set_city(m: Model) -> Model {
    match selected_feature(m) {
        Some(f) => Model {
            current_city: f.properties.name,
            current_location: f.geometry.coordinates,
            ..m
        },
        None => m,
    }
}

/// The configuration that records the current city of `m`.
pub open spec fn config_of(m: Model) -> Config {
    Config { current_city: m.current_city, coordinates: m.current_location }
}

/// `cmd` asks for nothing.
pub open spec fn is_nothing(cmd: Command) -> bool {
    cmd is Nothing
}

/// `cmd` asks to search for `text`.
pub open spec fn is_search_for(cmd: Command, text: Seq<char>) -> bool {
    cmd matches Command::Search(q) && q@ == text
}

/// `new` and `cmd` are what `msg` makes of `old`.
pub open spec fn update_post(old: Model, msg: Message, new: Model, cmd: Command) -> bool {
    let text = old.init_prompt_state.input.user_input@;
    let ci = old.init_prompt_state.input.character_index as int;
    let on_prompt = old.current_screen == CurrentScreen::Prompt;
    match msg {
        Message::Quit => new == (Model { state: State::Done, ..old }) && is_nothing(cmd),
        Message::Input(c) => if on_prompt {
            let (t, k) = after_enter(text, ci, c);
            with_input(old, t, k, new) && is_search_for(cmd, t)
        } else {
            new == old && is_nothing(cmd)
        },
        Message::RemoveChar => if on_prompt {
            let (t, k) = after_delete(text, ci);
            with_input(old, t, k, new) && is_search_for(cmd, t)
        } else {
            new == old && is_nothing(cmd)
        },
        Message::PrevChar => with_input(old, text, after_move_left(text, ci), new) && is_nothing(
            cmd,
        ),
        Message::NextChar => with_input(old, text, after_move_right(text, ci), new) && is_nothing(
            cmd,
        ),
        Message::ListPrev => new == with_selection(
            old,
            next_selection(old.init_prompt_state.list_state.selected),
        ) && is_nothing(cmd),
        Message::ListNext => new == with_selection(
            old,
            previous_selection(old.init_prompt_state.list_state.selected),
        ) && is_nothing(cmd),
        Message::Enter => if on_prompt {
            let chosen = after_set_city(old);
            &&& new == (Model { current_screen: CurrentScreen::Main, ..chosen })
            &&& cmd matches Command::SaveConfig(config) && config == config_of(chosen)
        } else {
            new == old && is_nothing(cmd)
        },
    }
}

/// `new` is `old` after the location search answered with `geo`: the places
/// are kept and the result list shows one line for each, in order.
pub open spec fn geocode_post(old: Model, geo: GeoLocation, new: Model) -> bool {
    &&& new.state == old.state
    &&& new.current_screen == old.current_screen
    &&& new.init_prompt_state.list_state == old.init_prompt_state.list_state
    &&& new.init_prompt_state.input == old.init_prompt_state.input
    &&& new.current_city == old.current_city
    &&& new.current_location == old.current_location
    &&& new.init_prompt_state.geo_locations == Some(geo)
    &&& new.init_prompt_state.list_entry@.len() == geo.features@.len()
    &&& forall|i: int|
        0 <= i < geo.features@.len() ==> #[trigger] new.init_prompt_state.list_entry@[i]@
            == entry_text(geo.features@[i])
}

/// `new` and `cmd` are what `event` makes of `old`.
pub open spec fn event_post(old: Model, event: Event, new: Model, cmd: Command) -> bool {
    match event {
        Event::Input(key) => match key_message(key) {
            Some(msg) => update_post(old, msg, new, cmd),
            None => new == old && is_nothing(cmd),
        },
        Event::Resize => new == old && is_nothing(cmd),
        Event::GeocodeResult(geo) => geocode_post(old, geo, new) && is_nothing(cmd),
        Event::GeocodeError(_) => false,
    }
}

/// Only `Quit` changes whether the application runs, and it always ends it:
/// once done, the application stays done.
pub proof fn law_only_quit_ends(old: Model, msg: Message, new: Model, cmd: Command)
    requires
        update_post(old, msg, new, cmd),
    ensures
        msg == Message::Quit ==> new.state == State::Done,
        msg != Message::Quit ==> new.state == old.state,
        old.state == State::Done ==> new.state == State::Done,
{
}

/// The screen only ever moves from the prompt to the main screen, and only
/// on `Enter`.
pub proof fn law_screen_only_advances(old: Model, msg: Message, new: Model, cmd: Command)
    requires
        update_post(old, msg, new, cmd),
    ensures
        old.current_screen == CurrentScreen::Main ==> new.current_screen == CurrentScreen::Main,
        new.current_screen != old.current_screen ==> msg == Message::Enter
            && old.current_screen == CurrentScreen::Prompt,
{
}

/// Whenever the search text changes, the caller is asked to search for the
/// new text; and every search asked for is for the text as it now stands.
pub proof fn law_search_follows_text(old: Model, msg: Message, new: Model, cmd: Command)
    requires
        update_post(old, msg, new, cmd),
    ensures
        new.init_prompt_state.input.user_input@ != old.init_prompt_state.input.user_input@
            ==> is_search_for(cmd, new.init_prompt_state.input.user_input@),
        cmd is Search ==> is_search_for(cmd, new.init_prompt_state.input.user_input@),
{
}

/// On the main screen, typing, deleting and confirming change nothing and
/// ask for nothing.
pub proof fn law_main_screen_ignores_prompt_keys(
    old: Model,
    msg: Message,
    new: Model,
    cmd: Command,
)
    requires
        update_post(old, msg, new, cmd),
        old.current_screen == CurrentScreen::Main,
        msg is Input || msg is RemoveChar || msg is Enter,
    ensures
        new == old,
        is_nothing(cmd),
{
}

/// The configuration asked to be written records the city that is current
/// after the step.
pub proof fn law_saved_config_is_current_city(old: Model, msg: Message, new: Model, cmd: Command)
    requires
        update_post(old, msg, new, cmd),
    ensures
        cmd matches Command::SaveConfig(config) ==> config.current_city == new.current_city
            && config.coordinates == new.current_location,
{
}

/// Confirming on the prompt makes the selected place the current city when
/// the selection points at a found place, and keeps the current city
/// otherwise.
pub proof fn law_enter_chooses_selected_place(old: Model, new: Model, cmd: Command)
    requires
        update_post(old, Message::Enter, new, cmd),
        old.current_screen == CurrentScreen::Prompt,
    ensures
        new.current_screen == CurrentScreen::Main,
        selected_feature(old) matches Some(f) ==> new.current_city == f.properties.name
            && new.current_location == f.geometry.coordinates,
        selected_feature(old) is None ==> new.current_city == old.current_city
            && new.current_location == old.current_location,
{
}

/// A step never moves the cursor out of the search text: if it lay within
/// the text before, it lies within the text after.
pub proof fn law_cursor_stays_in_search_text(old: Model, msg: Message, new: Model, cmd: Command)
    requires
        update_post(old, msg, new, cmd),
        old.init_prompt_state.input.cursor_in_bounds(),
    ensures
        new.init_prompt_state.input.cursor_in_bounds(),
{
}

/// Everything but the search text and the cursor is the same in `old` and
/// `new`.
pub open spec fn same_but_input(old: Model, new: Model) -> bool {
    &&& new.state == old.state
    &&& new.current_screen == old.current_screen
    &&& new.init_prompt_state.list_state == old.init_prompt_state.list_state
    &&& new.init_prompt_state.list_entry == old.init_prompt_state.list_entry
    &&& new.init_prompt_state.geo_locations == old.init_prompt_state.geo_locations
    &&& new.current_city == old.current_city
    &&& new.current_location == old.current_location
}

/// Typing on the prompt with the cursor within the text puts the char at
/// the cursor, keeps the chars before and after it in place, steps the cursor
/// over it, and asks to search for the new text.
pub proof fn law_typing_inserts_at_cursor(old: Model, c: char, new: Model, cmd: Command)
    requires
        update_post(old, Message::Input(c), new, cmd),
        old.current_screen == CurrentScreen::Prompt,
        old.init_prompt_state.input.character_index <= old.init_prompt_state.input.user_input@.len(),
    ensures
        ({
            let before = old.init_prompt_state.input.user_input@;
            let after = new.init_prompt_state.input.user_input@;
            let ci = old.init_prompt_state.input.character_index as int;
            &&& after.len() == before.len() + 1
            &&& after.take(ci) == before.take(ci)
            &&& after[ci] == c
            &&& after.skip(ci + 1) == before.skip(ci)
            &&& after == before.insert(ci, c)
            &&& new.init_prompt_state.input.character_index == ci + 1
            &&& is_search_for(cmd, after)
            &&& same_but_input(old, new)
        }),
{
    let before = old.init_prompt_state.input.user_input@;
    let after = new.init_prompt_state.input.user_input@;
    let ci = old.init_prompt_state.input.character_index as int;
    assert(after.take(ci) =~= before.take(ci));
    assert(after.skip(ci + 1) =~= before.skip(ci));
}

/// Typing on the prompt with the cursor past the end of the text appends the
/// char and puts the cursor after it.
pub proof fn law_typing_past_end_appends(old: Model, c: char, new: Model, cmd: Command)
    requires
        update_post(old, Message::Input(c), new, cmd),
        old.current_screen == CurrentScreen::Prompt,
        old.init_prompt_state.input.character_index > old.init_prompt_state.input.user_input@.len(),
    ensures
        new.init_prompt_state.input.user_input@ == old.init_prompt_state.input.user_input@.push(c),
        new.init_prompt_state.input.character_index == old.init_prompt_state.input.user_input@.len()
            + 1,
        is_search_for(cmd, new.init_prompt_state.input.user_input@),
        same_but_input(old, new),
{
    let before = old.init_prompt_state.input.user_input@;
    assert(before.insert(before.len() as int, c) =~= before.push(c));
}

/// A backspace on the prompt with the cursor within the text, not at its
/// start, removes the char just before the cursor and steps the cursor back;
/// at the start it changes nothing. Either way it asks to search for the
/// text as it then stands.
pub proof fn law_backspace_removes_char_before_cursor(old: Model, new: Model, cmd: Command)
    requires
        update_post(old, Message::RemoveChar, new, cmd),
        old.current_screen == CurrentScreen::Prompt,
        old.init_prompt_state.input.character_index <= old.init_prompt_state.input.user_input@.len(),
    ensures
        ({
            let before = old.init_prompt_state.input.user_input@;
            let after = new.init_prompt_state.input.user_input@;
            let ci = old.init_prompt_state.input.character_index as int;
            &&& ci > 0 ==> after == before.remove(ci - 1)
                && new.init_prompt_state.input.character_index == ci - 1
            &&& ci == 0 ==> after == before && new.init_prompt_state.input.character_index == 0
            &&& is_search_for(cmd, after)
            &&& same_but_input(old, new)
        }),
{
    let before = old.init_prompt_state.input.user_input@;
    let ci = old.init_prompt_state.input.character_index as int;
    if ci > 0 {
        assert(before.take(ci - 1) + before.skip(ci) =~= before.remove(ci - 1));
    }
}

/// Left and right move the cursor one char within the text, stopping at
/// either end, and leave everything else as it was.
pub proof fn law_arrows_move_cursor_by_one(old: Model, msg: Message, new: Model, cmd: Command)
    requires
        update_post(old, msg, new, cmd),
        msg == Message::PrevChar || msg == Message::NextChar,
        old.init_prompt_state.input.character_index <= old.init_prompt_state.input.user_input@.len(),
    ensures
        ({
            let len = old.init_prompt_state.input.user_input@.len() as int;
            let ci = old.init_prompt_state.input.character_index as int;
            let new_ci = new.init_prompt_state.input.character_index as int;
            &&& msg == Message::PrevChar && ci > 0 ==> new_ci == ci - 1
            &&& msg == Message::PrevChar && ci == 0 ==> new_ci == 0
            &&& msg == Message::NextChar && ci < len ==> new_ci == ci + 1
            &&& msg == Message::NextChar && ci == len ==> new_ci == len
            &&& new.init_prompt_state.input.user_input@ == old.init_prompt_state.input.user_input@
            &&& same_but_input(old, new)
            &&& cmd is Nothing
        }),
{
}

/// Down (`ListPrev`) selects the entry after the selected one and Up
/// (`ListNext`) the one before it, and nothing else changes.
pub proof fn law_list_keys_step_selection(old: Model, msg: Message, new: Model, cmd: Command)
    requires
        update_post(old, msg, new, cmd),
        msg == Message::ListPrev || msg == Message::ListNext,
    ensures
        ({
            let sel = old.init_prompt_state.list_state.selected;
            let new_sel = new.init_prompt_state.list_state.selected;
            &&& msg == Message::ListPrev && sel is Some && sel->0 < usize::MAX ==> new_sel == Some(
                (sel->0 + 1) as usize,
            )
            &&& msg == Message::ListNext && sel is Some && sel->0 > 0 ==> new_sel == Some(
                (sel->0 - 1) as usize,
            )
            &&& msg == Message::ListPrev && sel is None ==> new_sel == Some(0usize)
            &&& msg == Message::ListNext && sel is None ==> new_sel == Some(usize::MAX)
            &&& new.init_prompt_state.input == old.init_prompt_state.input
            &&& new.init_prompt_state.list_entry == old.init_prompt_state.list_entry
            &&& new.current_city == old.current_city
            &&& new.current_screen == old.current_screen
            &&& cmd is Nothing
        }),
{
}

/// Confirming on the prompt while entry `i` of the found places is selected
/// makes that place the current city, with its coordinates, and asks to save
/// it.
pub proof fn law_enter_takes_place_at_selection(
    old: Model,
    new: Model,
    cmd: Command,
    geo: GeoLocation,
    i: usize,
)
    requires
        update_post(old, Message::Enter, new, cmd),
        old.current_screen == CurrentScreen::Prompt,
        old.init_prompt_state.list_state.selected == Some(i),
        old.init_prompt_state.geo_locations == Some(geo),
        i < geo.features@.len(),
    ensures
        new.current_city == geo.features@[i as int].properties.name,
        new.current_location == geo.features@[i as int].geometry.coordinates,
        new.current_screen == CurrentScreen::Main,
        cmd matches Command::SaveConfig(config) && config.current_city
            == geo.features@[i as int].properties.name && config.coordinates
            == geo.features@[i as int].geometry.coordinates,
{
}

/// The answer of the location search replaces the result list: afterwards it
/// holds exactly one line per found place, in order, whatever it held
/// before; each line is the place's name, a comma and a space, then its
/// state if it has one. The places are kept, and the search text, cursor,
/// selection and city are untouched.
pub proof fn law_geocode_answer_replaces_list(
    old: Model,
    geo: GeoLocation,
    new: Model,
    cmd: Command,
)
    requires
        event_post(old, Event::GeocodeResult(geo), new, cmd),
    ensures
        new.init_prompt_state.list_entry@.len() == geo.features@.len(),
        forall|i: int|
            0 <= i < geo.features@.len() ==> {
                let line = #[trigger] new.init_prompt_state.list_entry@[i]@;
                let name = geo.features@[i].properties.name@;
                &&& line.take(name.len() as int) == name
                &&& line[name.len() as int] == ','
                &&& line[name.len() + 1int] == ' '
                &&& line.skip(name.len() + 2int) == match geo.features@[i].properties.state {
                    Some(state) => state@,
                    None => Seq::<char>::empty(),
                }
            },
        new.init_prompt_state.geo_locations == Some(geo),
        new.init_prompt_state.input == old.init_prompt_state.input,
        new.init_prompt_state.list_state == old.init_prompt_state.list_state,
        new.current_city == old.current_city,
        cmd is Nothing,
{
    assert forall|i: int| 0 <= i < geo.features@.len() implies {
        let line = #[trigger] new.init_prompt_state.list_entry@[i]@;
        let name = geo.features@[i].properties.name@;
        &&& line.take(name.len() as int) == name
        &&& line[name.len() as int] == ','
        &&& line[name.len() + 1int] == ' '
        &&& line.skip(name.len() + 2int) == match geo.features@[i].properties.state {
            Some(state) => state@,
            None => Seq::<char>::empty(),
        }
    } by {
        let line = new.init_prompt_state.list_entry@[i]@;
        let name = geo.features@[i].properties.name@;
        assert(line == entry_text(geo.features@[i]));
        assert(line.take(name.len() as int) =~= name);
        assert(line.skip(name.len() + 2int) =~= match geo.features@[i].properties.state {
            Some(state) => state@,
            None => Seq::<char>::empty(),
        });
    }
}

impl Model {
    /// The state at start: running, on the prompt, nothing typed, nothing
    /// found, the first list entry selected, no city chosen.
    pub fn new() -> (model: Model)
        ensures
            model.state == State::Running,
            model.current_screen == CurrentScreen::Prompt,
            model.init_prompt_state.list_state.selected == Some(0usize),
            model.init_prompt_state.list_entry@.len() == 0,
            model.init_prompt_state.geo_locations is None,
            model.init_prompt_state.input.user_input@ == Seq::<char>::empty(),
            model.init_prompt_state.input.character_index == 0,
            model.current_city@ == Seq::<char>::empty(),
            model.current_location == (0u64, 0u64),
    {
        Model {
            state: State::Running,
            current_screen: CurrentScreen::Prompt,
            init_prompt_state: InitPromptState {
                list_state: ListSelection::with_selected(Some(0)),
                list_entry: Vec::new(),
                geo_locations: None,
                input: Input::new(),
            },
            current_city: String::new(),
            current_location: (0, 0),
        }
    }
}

/// Reacts to `event`: a key goes through its message, a resize changes
/// nothing, the answer of the location search fills the result list.
pub fn process_event(model: &mut Model, event: Event) -> (cmd: Command)
    requires
        !(event is GeocodeError),
    ensures
        event_post(*old(model), event, *final(model), cmd),
{
    match event {
        Event::Input(key_event) => {
            match handle_key(key_event) {
                Some(msg) => update(model, msg),
                None => Command::Nothing,
            }
        },
        Event::Resize => Command::Nothing,
        Event::GeocodeResult(geo_locations) => {
            let entries = list_entries(&geo_locations);
            model.init_prompt_state.geo_locations = Some(geo_locations);
            model.init_prompt_state.list_entry = entries;
            Command::Nothing
        },
        Event::GeocodeError(_) => Command::Nothing,
    }
}

/// Reacts to `msg`.
pub fn update(model: &mut Model, msg: Message) -> (cmd: Command)
    ensures
        update_post(*old(model), msg, *final(model), cmd),
{
    match msg {
        Message::Quit => {
            model.state = State::Done;
            Command::Nothing
        },
        Message::Input(c) => match model.current_screen {
            CurrentScreen::Prompt => {
                model.init_prompt_state.input.enter_char(c);
                Command::Search(model.init_prompt_state.input.user_input.clone())
            },
            CurrentScreen::Main => Command::Nothing,
        },
        Message::RemoveChar => match model.current_screen {
            CurrentScreen::Prompt => {
                model.init_prompt_state.input.delete_char();
                Command::Search(model.init_prompt_state.input.user_input.clone())
            },
            CurrentScreen::Main => Command::Nothing,
        },
        Message::PrevChar => {
            model.init_prompt_state.input.move_cursor_left();
            Command::Nothing
        },
        Message::NextChar => {
            model.init_prompt_state.input.move_cursor_right();
            Command::Nothing
        },
        Message::ListPrev => {
            model.init_prompt_state.list_state.select_next();
            Command::Nothing
        },
        Message::ListNext => {
            model.init_prompt_state.list_state.select_previous();
            Command::Nothing
        },
        Message::Enter => match model.current_screen {
            CurrentScreen::Prompt => {
                set_city(model);
                let config = config_to_save(model);
                model.current_screen = CurrentScreen::Main;
                Command::SaveConfig(config)
            },
            CurrentScreen::Main => Command::Nothing,
        },
    }
}

/// Makes the selected place, if the selection points at one, the current
/// city.
pub fn set_city(model: &mut Model)
    ensures
        *final(model) == after_set_city(*old(model)),
{
    let i = match model.init_prompt_state.list_state.selected() {
        Some(i) => i,
        None => {
            return ;
        },
    };
    let chosen = match &model.init_prompt_state.geo_locations {
        Some(geo) => {
            if i < geo.features.len() {
                Some((geo.features[i].properties.name.clone(), geo.features[i].geometry.coordinates))
            } else {
                None
            }
        },
        None => None,
    };
    match chosen {
        Some((name, coordinates)) => {
            model.current_city = name;
            model.current_location = coordinates;
        },
        None => {},
    }
}

/// The configuration that records the current city.
pub fn config_to_save(model: &Model) -> (config: Config)
    ensures
        config == config_of(*model),
{
    Config { current_city: model.current_city.clone(), coordinates: model.current_location }
}

} // verus!
