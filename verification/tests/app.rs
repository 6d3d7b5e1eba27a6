use wxtop::app::{
    config_to_save, from_terminal_event, TerminalEvent, process_event, set_city, update, Command, CurrentScreen, Event, Model, State,
};
use wxtop::config::Config;
use wxtop::keys::{handle_key, KeyCode, KeyEventKind, KeyInput, Message, CONTROL};
use wxtop::list::ListSelection;
use wxtop::weather::{Feature, GeoLocation, Geometry, Properties};

fn key(code: KeyCode) -> KeyInput {
    KeyInput { code, modifiers: 0, kind: KeyEventKind::Press }
}

fn place(name: &str, state: Option<&str>, lon: f64, lat: f64) -> Feature {
    Feature {
        feature_type: "Feature".to_string(),
        properties: Properties {
            osm_type: "R".to_string(),
            osm_id: 7,
            osm_key: "place".to_string(),
            osm_value: "city".to_string(),
            name: name.to_string(),
            country: "Ukraine".to_string(),
            countrycode: "UA".to_string(),
            place_type: Some("city".to_string()),
            city: None,
            district: None,
            street: None,
            housenumber: None,
            postcode: None,
            locality: None,
            county: None,
            state: state.map(|s| s.to_string()),
            extra: None,
            extent: None,
        },
        geometry: Geometry {
            geometry_type: "Point".to_string(),
            coordinates: (lon.to_bits(), lat.to_bits()),
        },
    }
}

fn two_places() -> GeoLocation {
    GeoLocation {
        collection_type: "FeatureCollection".to_string(),
        features: vec![
            place("Zhytomyr", Some("Zhytomyr Oblast"), 28.66, 50.25),
            place("Vinnytsia", None, 28.47, 49.23),
        ],
    }
}

fn search_text(cmd: &Command) -> Option<String> {
    match cmd {
        Command::Search(q) => Some(q.clone()),
        _ => None,
    }
}

#[test]
fn handle_key_maps_every_binding() {
    assert_eq!(handle_key(key(KeyCode::Char('q'))), Some(Message::Quit));
    let release_q = KeyInput { code: KeyCode::Char('q'), modifiers: 0, kind: KeyEventKind::Release };
    assert_eq!(handle_key(release_q), Some(Message::Quit));
    let ctrl_c = KeyInput { code: KeyCode::Char('c'), modifiers: CONTROL, kind: KeyEventKind::Press };
    assert_eq!(handle_key(ctrl_c), Some(Message::Quit));
    let ctrl_upper_c =
        KeyInput { code: KeyCode::Char('C'), modifiers: CONTROL, kind: KeyEventKind::Release };
    assert_eq!(handle_key(ctrl_upper_c), Some(Message::Quit));
    let ctrl_shift_c =
        KeyInput { code: KeyCode::Char('c'), modifiers: CONTROL | 1, kind: KeyEventKind::Press };
    assert_eq!(handle_key(ctrl_shift_c), Some(Message::Input('c')));
    assert_eq!(handle_key(key(KeyCode::Backspace)), Some(Message::RemoveChar));
    assert_eq!(handle_key(key(KeyCode::Up)), Some(Message::ListNext));
    assert_eq!(handle_key(key(KeyCode::Down)), Some(Message::ListPrev));
    assert_eq!(handle_key(key(KeyCode::Left)), Some(Message::PrevChar));
    assert_eq!(handle_key(key(KeyCode::Right)), Some(Message::NextChar));
    assert_eq!(handle_key(key(KeyCode::Enter)), Some(Message::Enter));
    assert_eq!(handle_key(key(KeyCode::Char('k'))), Some(Message::Input('k')));
    let repeat_k = KeyInput { code: KeyCode::Char('k'), modifiers: 0, kind: KeyEventKind::Repeat };
    assert_eq!(handle_key(repeat_k), None);
    assert_eq!(handle_key(key(KeyCode::Other)), None);
}

#[test]
fn new_model_starts_on_prompt() {
    let m = Model::new();
    assert!(m.state == State::Running);
    assert!(m.current_screen == CurrentScreen::Prompt);
    assert_eq!(m.init_prompt_state.list_state.selected, Some(0));
    assert!(m.init_prompt_state.list_entry.is_empty());
    assert!(m.init_prompt_state.geo_locations.is_none());
    assert_eq!(m.current_city, "");
}

#[test]
fn quit_ends() {
    let mut m = Model::new();
    let cmd = update(&mut m, Message::Quit);
    assert!(m.state == State::Done);
    assert!(matches!(cmd, Command::Nothing));
}

#[test]
fn typing_on_prompt_asks_to_search() {
    let mut m = Model::new();
    let first = update(&mut m, Message::Input('K'));
    assert_eq!(search_text(&first), Some("K".to_string()));
    let second = update(&mut m, Message::Input('y'));
    assert_eq!(search_text(&second), Some("Ky".to_string()));
    let third = update(&mut m, Message::RemoveChar);
    assert_eq!(search_text(&third), Some("K".to_string()));
    assert_eq!(m.init_prompt_state.input.user_input, "K");
}

#[test]
fn cursor_messages_move_cursor() {
    let mut m = Model::new();
    update(&mut m, Message::Input('a'));
    update(&mut m, Message::Input('b'));
    let cmd = update(&mut m, Message::PrevChar);
    assert!(matches!(cmd, Command::Nothing));
    assert_eq!(m.init_prompt_state.input.character_index, 1);
    update(&mut m, Message::NextChar);
    assert_eq!(m.init_prompt_state.input.character_index, 2);
}

#[test]
fn list_messages_move_selection() {
    let mut m = Model::new();
    update(&mut m, Message::ListPrev);
    assert_eq!(m.init_prompt_state.list_state.selected, Some(1));
    update(&mut m, Message::ListNext);
    update(&mut m, Message::ListNext);
    assert_eq!(m.init_prompt_state.list_state.selected, Some(0));
    m.init_prompt_state.list_state = ListSelection { selected: None };
    update(&mut m, Message::ListNext);
    assert_eq!(m.init_prompt_state.list_state.selected, Some(usize::MAX));
    update(&mut m, Message::ListPrev);
    assert_eq!(m.init_prompt_state.list_state.selected, Some(usize::MAX));
}

#[test]
fn geocode_result_fills_list() {
    let mut m = Model::new();
    let cmd = process_event(&mut m, Event::GeocodeResult(two_places()));
    assert!(matches!(cmd, Command::Nothing));
    assert_eq!(
        m.init_prompt_state.list_entry,
        vec!["Zhytomyr, Zhytomyr Oblast".to_string(), "Vinnytsia, ".to_string()]
    );
    assert_eq!(m.init_prompt_state.geo_locations.as_ref().map(|g| g.features.len()), Some(2));
}

#[test]
fn key_events_go_through_messages() {
    let mut m = Model::new();
    let cmd = process_event(&mut m, Event::Input(key(KeyCode::Char('L'))));
    assert_eq!(search_text(&cmd), Some("L".to_string()));
    let cmd = process_event(&mut m, Event::Input(key(KeyCode::Other)));
    assert!(matches!(cmd, Command::Nothing));
    let cmd = process_event(&mut m, Event::Resize);
    assert!(matches!(cmd, Command::Nothing));
    assert_eq!(m.init_prompt_state.input.user_input, "L");
    process_event(&mut m, Event::Input(key(KeyCode::Char('q'))));
    assert!(m.state == State::Done);
}

#[test]
fn enter_chooses_selected_city_and_saves() {
    let mut m = Model::new();
    process_event(&mut m, Event::GeocodeResult(two_places()));
    update(&mut m, Message::ListPrev);
    let cmd = update(&mut m, Message::Enter);
    assert!(m.current_screen == CurrentScreen::Main);
    assert_eq!(m.current_city, "Vinnytsia");
    assert_eq!(m.current_location, (28.47f64.to_bits(), 49.23f64.to_bits()));
    match cmd {
        Command::SaveConfig(Config { current_city, coordinates }) => {
            assert_eq!(current_city, "Vinnytsia");
            assert_eq!(coordinates, (28.47f64.to_bits(), 49.23f64.to_bits()));
        }
        _ => panic!("expected the configuration to be saved"),
    }
}

#[test]
fn main_screen_ignores_typing() {
    let mut m = Model::new();
    update(&mut m, Message::Enter);
    assert!(m.current_screen == CurrentScreen::Main);
    let cmd = update(&mut m, Message::Input('x'));
    assert!(matches!(cmd, Command::Nothing));
    let cmd = update(&mut m, Message::RemoveChar);
    assert!(matches!(cmd, Command::Nothing));
    let cmd = update(&mut m, Message::Enter);
    assert!(matches!(cmd, Command::Nothing));
    assert_eq!(m.init_prompt_state.input.user_input, "");
    assert!(m.current_screen == CurrentScreen::Main);
}

#[test]
fn set_city_without_results_keeps_city() {
    let mut m = Model::new();
    m.current_city = "Lviv".to_string();
    set_city(&mut m);
    assert_eq!(m.current_city, "Lviv");
}

#[test]
fn set_city_with_selection_out_of_range_keeps_city() {
    let mut m = Model::new();
    process_event(&mut m, Event::GeocodeResult(two_places()));
    m.init_prompt_state.list_state.selected = Some(2);
    set_city(&mut m);
    assert_eq!(m.current_city, "");
    m.init_prompt_state.list_state.selected = None;
    set_city(&mut m);
    assert_eq!(m.current_city, "");
    m.init_prompt_state.list_state.selected = Some(0);
    set_city(&mut m);
    assert_eq!(m.current_city, "Zhytomyr");
}

#[test]
fn config_to_save_copies_city() {
    let mut m = Model::new();
    m.current_city = "Odesa".to_string();
    m.current_location = (1, 2);
    let c = config_to_save(&m);
    assert_eq!(c.current_city, "Odesa");
    assert_eq!(c.coordinates, (1, 2));
}

#[test]
fn config_default_is_empty() {
    let c = Config::default();
    assert_eq!(c.current_city, "");
    assert_eq!(c.coordinates, (0, 0));
}

#[test]
fn law_only_quit_ends_on_values() {
    let msgs = [
        Message::Input('a'),
        Message::RemoveChar,
        Message::PrevChar,
        Message::NextChar,
        Message::Enter,
        Message::ListPrev,
        Message::ListNext,
    ];
    let mut m = Model::new();
    for msg in msgs {
        update(&mut m, msg);
        assert!(m.state == State::Running);
    }
    update(&mut m, Message::Quit);
    for msg in msgs {
        update(&mut m, msg);
        assert!(m.state == State::Done);
    }
}

#[test]
fn terminal_events_pass_keys_and_resizes() {
    let k = key(KeyCode::Enter);
    assert!(matches!(from_terminal_event(TerminalEvent::Key(k)), Some(Event::Input(x)) if x == k));
    assert!(matches!(from_terminal_event(TerminalEvent::Resize(80, 24)), Some(Event::Resize)));
    assert!(from_terminal_event(TerminalEvent::Other).is_none());
}

#[test]
fn law_cursor_stays_in_search_text_on_values() {
    let mut m = Model::new();
    for msg in [Message::Input('a'), Message::NextChar, Message::NextChar, Message::RemoveChar, Message::RemoveChar, Message::PrevChar] {
        update(&mut m, msg);
        let input = &m.init_prompt_state.input;
        assert!(input.character_index <= input.user_input.chars().count());
    }
}
