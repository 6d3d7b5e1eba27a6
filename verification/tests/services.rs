use wxtop::debounce::{char_is_whitespace, is_blank_query, DebounceAction, DebounceEvent, Debouncer};
use wxtop::layout::{centered_rect, prompt_chunks, prompt_cursor, shows_search_hint, Area};
use wxtop::input::Input;
use wxtop::weather::{list_entry, location_url, Feature, Geometry, Properties, WeatherApi};

#[test]
fn location_url_embeds_query() {
    assert_eq!(
        location_url("Kyiv"),
        "https://photon.komoot.io/api/?q=Kyiv&limit=5&layer=city&layer=locality&lang=en"
    );
    assert_eq!(
        location_url(""),
        "https://photon.komoot.io/api/?q=&limit=5&layer=city&layer=locality&lang=en"
    );
}

#[test]
fn list_entry_joins_name_and_state() {
    let mut f = Feature {
        feature_type: "Feature".to_string(),
        properties: Properties {
            osm_type: "N".to_string(),
            osm_id: 1,
            osm_key: "place".to_string(),
            osm_value: "town".to_string(),
            name: "Київ".to_string(),
            country: "Ukraine".to_string(),
            countrycode: "UA".to_string(),
            place_type: None,
            city: None,
            district: None,
            street: None,
            housenumber: None,
            postcode: None,
            locality: None,
            county: None,
            state: Some("Kyiv".to_string()),
            extra: None,
            extent: Some(vec![0, 1, 2, 3]),
        },
        geometry: Geometry { geometry_type: "Point".to_string(), coordinates: (0, 0) },
    };
    assert_eq!(list_entry(&f), "Київ, Kyiv");
    f.properties.state = None;
    assert_eq!(list_entry(&f), "Київ, ");
    assert!(WeatherApi::OpenMeteo == WeatherApi::OpenMeteo);
}

#[test]
fn blank_queries() {
    assert!(is_blank_query(""));
    assert!(is_blank_query(" \t\n\u{3000}"));
    assert!(!is_blank_query("  a "));
    assert!(!is_blank_query("x"));
}

#[test]
fn debounce_fetches_latest_query_once() {
    let mut d = Debouncer::new();
    assert!(matches!(d.step(DebounceEvent::TimerElapsed), DebounceAction::Wait));
    assert!(matches!(d.step(DebounceEvent::Query("Ky".to_string())), DebounceAction::RestartTimer));
    assert!(matches!(d.step(DebounceEvent::Query("Kyiv".to_string())), DebounceAction::RestartTimer));
    match d.step(DebounceEvent::TimerElapsed) {
        DebounceAction::Fetch(q) => assert_eq!(q, "Kyiv"),
        _ => panic!("expected a fetch"),
    }
    assert!(!d.is_timer_active);
    assert!(matches!(d.step(DebounceEvent::TimerElapsed), DebounceAction::Wait));
    assert!(matches!(d.step(DebounceEvent::Closed), DebounceAction::Stop));
}

#[test]
fn debounce_skips_blank_query() {
    let mut d = Debouncer::new();
    d.step(DebounceEvent::Query("   ".to_string()));
    assert!(matches!(d.step(DebounceEvent::TimerElapsed), DebounceAction::Wait));
    assert!(!d.is_timer_active);
}

#[test]
fn centered_rect_takes_the_middle() {
    let r = Area { x: 0, y: 0, width: 100, height: 100 };
    assert_eq!(centered_rect(80, 70, r), Area { x: 10, y: 15, width: 80, height: 70 });
    let r2 = Area { x: 5, y: 2, width: 200, height: 50 };
    assert_eq!(centered_rect(50, 50, r2), Area { x: 55, y: 15, width: 100, height: 25 });
}

#[test]
fn prompt_chunks_keep_three_rows_for_the_field() {
    let (list, field) = prompt_chunks(Area { x: 10, y: 15, width: 80, height: 70 });
    assert_eq!(list, Area { x: 10, y: 15, width: 80, height: 67 });
    assert_eq!(field, Area { x: 10, y: 82, width: 80, height: 3 });
}

#[test]
fn prompt_cursor_sits_inside_border() {
    assert_eq!(prompt_cursor(Area { x: 10, y: 82, width: 80, height: 3 }, 4), (15, 83));
}

#[test]
fn search_hint_only_when_empty() {
    assert!(shows_search_hint(&Input::default()));
    let i = Input { user_input: "a".to_string(), character_index: 1 };
    assert!(!shows_search_hint(&i));
}

#[test]
fn whitespace_agrees_with_std_on_every_char() {
    for v in 0u32..=0x10FFFF {
        if let Some(c) = char::from_u32(v) {
            assert_eq!(char_is_whitespace(c), c.is_whitespace(), "U+{v:04X}");
        }
    }
}

fn inside(inner: Area, outer: Area) -> bool {
    outer.x <= inner.x
        && inner.x as u32 + inner.width as u32 <= outer.x as u32 + outer.width as u32
        && outer.y <= inner.y
        && inner.y as u32 + inner.height as u32 <= outer.y as u32 + outer.height as u32
}

#[test]
fn centered_rect_lies_inside() {
    for (w, h) in [(0u16, 0u16), (1, 1), (7, 3), (80, 24), (333, 91)] {
        let r = Area { x: 3, y: 4, width: w, height: h };
        for (px, py) in [(0u16, 0u16), (80, 70), (100, 100), (33, 67)] {
            assert!(inside(centered_rect(px, py, r), r));
        }
        let (list, field) = prompt_chunks(r);
        assert!(inside(list, r) && inside(field, r));
        assert_eq!((list.x, list.width, field.x, field.width), (r.x, r.width, r.x, r.width));
    }
}

#[test]
fn law_fetch_once_per_quiet_period_on_values() {
    let mut d = Debouncer::new();
    let events = vec![
        DebounceEvent::Query("a".to_string()),
        DebounceEvent::Query("ab".to_string()),
        DebounceEvent::TimerElapsed,
        DebounceEvent::TimerElapsed,
        DebounceEvent::Query(" ".to_string()),
        DebounceEvent::TimerElapsed,
        DebounceEvent::Query("abc".to_string()),
        DebounceEvent::TimerElapsed,
    ];
    let mut fetched = Vec::new();
    for e in events {
        if let DebounceAction::Fetch(q) = d.step(e) {
            fetched.push(q);
        }
    }
    assert_eq!(fetched, vec!["ab".to_string(), "abc".to_string()]);
}

#[test]
fn centered_rect_with_odd_percentages() {
    let r = Area { x: 0, y: 0, width: 100, height: 100 };
    assert_eq!(centered_rect(71, 71, r), Area { x: 14, y: 14, width: 71, height: 71 });
    let r2 = Area { x: 1, y: 1, width: 9, height: 7 };
    assert_eq!(centered_rect(50, 50, r2), Area { x: 3, y: 3, width: 5, height: 3 });
}

#[test]
fn prompt_chunks_on_a_short_area() {
    let (list, field) = prompt_chunks(Area { x: 0, y: 5, width: 10, height: 2 });
    assert_eq!(list, Area { x: 0, y: 5, width: 10, height: 0 });
    assert_eq!(field, Area { x: 0, y: 5, width: 10, height: 2 });
}

fn share(len: u32, percent: u32) -> u32 {
    (len * percent + 50) / 100
}

#[test]
fn centered_rect_matches_rounded_shares() {
    for &(x, y) in &[(0u16, 0u16), (7, 3), (65500, 65530)] {
        for w in (0u16..=130).step_by(7) {
            for h in (0u16..=90).step_by(5) {
                let r = Area { x, y, width: w, height: h };
                let lx = (u32::from(x) + u32::from(w)).min(65535) - u32::from(x);
                let ly = (u32::from(y) + u32::from(h)).min(65535) - u32::from(y);
                for &(px, py) in &[(80u16, 70u16), (71, 33), (100, 0), (0, 100), (50, 49)] {
                    let mx = (100 - u32::from(px)) / 2;
                    let my = (100 - u32::from(py)) / 2;
                    let got = centered_rect(px, py, r);
                    let want = Area {
                        x: (u32::from(x) + share(lx, mx)) as u16,
                        y: (u32::from(y) + share(ly, my)) as u16,
                        width: (share(lx, mx + u32::from(px)) - share(lx, mx)) as u16,
                        height: (share(ly, my + u32::from(py)) - share(ly, my)) as u16,
                    };
                    assert_eq!(got, want, "{r:?} {px} {py}");
                }
                let (list, field) = prompt_chunks(r);
                let taken = ly.min(3);
                assert_eq!(list, Area { x, y, width: w, height: (ly - taken) as u16 });
                assert_eq!(field, Area { x, y: (u32::from(y) + ly - taken) as u16, width: w, height: taken as u16 });
            }
        }
    }
}
