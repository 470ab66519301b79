use wfetch::config::ConfigFile;
use wfetch::error::RunError;
use wfetch::location::LocationCandidate;
use wfetch::run::{Action, Args, Event, Session, Stage};
use wfetch::weather::{DisplayUnits, WeatherSnapshot};

fn args(key: Option<&str>, setup: bool) -> Args {
    Args { api_key: key.map(|k| k.to_string()), setup: Some(setup.to_string()) }
}

fn record(key: Option<&str>, location: Option<&str>) -> ConfigFile {
    ConfigFile {
        api_key: key.map(|k| k.to_string()),
        query_location: location.map(|l| l.to_string()),
        extra: Vec::new(),
    }
}

fn paris() -> Vec<LocationCandidate> {
    vec![
        LocationCandidate {
            id: 2801268,
            name: "Paris".to_string(),
            region: "Ile-de-France".to_string(),
            country: "France".to_string(),
            url: "paris-ile-de-france-france".to_string(),
        },
        LocationCandidate {
            id: 3125474,
            name: "Paris".to_string(),
            region: "Texas".to_string(),
            country: "United States of America".to_string(),
            url: "paris-texas-united-states-of-america".to_string(),
        },
    ]
}

fn snapshot() -> WeatherSnapshot {
    WeatherSnapshot {
        location_name: "Paris".to_string(),
        region: "Ile-de-France".to_string(),
        country: "France".to_string(),
        temp_c: 1850,
        temp_f: 6530,
        feelslike_c: 1790,
        feelslike_f: 6420,
        localtime: "2024-05-01 09:05".to_string(),
        wind_kph: 1440,
        wind_mph: 890,
        humidity: 64,
        precip_mm: 0,
    }
}

fn abort_of(a: &Action) -> Option<RunError> {
    match a {
        Action::Abort(e) => Some(*e),
        _ => None,
    }
}

#[test]
fn storing_a_first_credential_creates_the_record() {
    let (s, a) = Session::start(args(Some("ABC123"), false), DisplayUnits::Celsius);
    assert!(matches!(a, Action::LoadConfig));
    let (s, a) = s.step(Event::ConfigLoaded(None));
    match a {
        Action::SaveConfig(c) => {
            assert_eq!(c.api_key.as_deref(), Some("ABC123"));
            assert_eq!(c.query_location, None);
            assert!(c.extra.is_empty());
        }
        other => panic!("unexpected {:?}", other),
    }
    let (s, a) = s.step(Event::ConfigWritten);
    assert!(matches!(a, Action::Finish));
    assert!(matches!(s.stage, Stage::Finished));
}

#[test]
fn storing_a_credential_overwrites_only_it() {
    let (s, _) = Session::start(args(Some("NEW"), false), DisplayUnits::Celsius);
    let (_, a) = s.step(Event::ConfigLoaded(Some(record(Some("OLD"), Some("rome-lazio-italy")))));
    match a {
        Action::SaveConfig(c) => {
            assert_eq!(c.api_key.as_deref(), Some("NEW"));
            assert_eq!(c.query_location.as_deref(), Some("rome-lazio-italy"));
        }
        other => panic!("unexpected {:?}", other),
    }
}

#[test]
fn setup_stores_the_chosen_reference() {
    let (s, a) = Session::start(args(None, true), DisplayUnits::Celsius);
    assert!(matches!(a, Action::LoadConfig));
    let (s, a) = s.step(Event::ConfigLoaded(Some(record(Some("ABC123"), None))));
    assert!(matches!(a, Action::AskQuery));
    let (s, a) = s.step(Event::QueryEntered("Paris".to_string()));
    match &a {
        Action::Search(u) => {
            assert_eq!(u, "https://api.weatherapi.com/v1/search.json?key=ABC123&q=Paris")
        }
        other => panic!("unexpected {:?}", other),
    }
    let (s, a) = s.step(Event::SearchResults(paris()));
    match &a {
        Action::AskSelection(labels) => assert_eq!(
            labels,
            &vec![
                "Paris, Ile-de-France, France".to_string(),
                "Paris, Texas, United States of America".to_string()
            ]
        ),
        other => panic!("unexpected {:?}", other),
    }
    let (s, a) = s.step(Event::SelectionMade(0));
    match a {
        Action::SaveConfig(c) => {
            assert_eq!(c.api_key.as_deref(), Some("ABC123"));
            assert_eq!(c.query_location.as_deref(), Some("paris-ile-de-france-france"));
        }
        other => panic!("unexpected {:?}", other),
    }
    let (_, a) = s.step(Event::ConfigWritten);
    assert!(matches!(a, Action::Finish));
}

#[test]
fn credential_then_setup_in_one_run() {
    let (s, _) = Session::start(args(Some("ABC123"), true), DisplayUnits::Celsius);
    let (s, _) = s.step(Event::ConfigLoaded(None));
    let (s, a) = s.step(Event::ConfigWritten);
    assert!(matches!(a, Action::LoadConfig));
    let (_, a) = s.step(Event::ConfigLoaded(Some(record(Some("ABC123"), None))));
    assert!(matches!(a, Action::AskQuery));
}

#[test]
fn steady_state_fetches_and_shows_the_report() {
    let (s, _) = Session::start(args(None, false), DisplayUnits::Celsius);
    let (s, a) = s.step(Event::ConfigLoaded(Some(record(Some("ABC123"), Some("paris-ile-de-france-france")))));
    match &a {
        Action::Fetch(u) => assert_eq!(
            u,
            "https://api.weatherapi.com/v1/current.json?key=ABC123&q=paris-ile-de-france-france&aqi=no"
        ),
        other => panic!("unexpected {:?}", other),
    }
    let (s, a) = s.step(Event::SnapshotFetched(snapshot()));
    match a {
        Action::Show(lines) => {
            assert_eq!(lines.len(), 9);
            assert_eq!(lines[0], "  Location:          Paris, Ile-de-France, France");
            assert_eq!(lines[1], "  Temperature:       18.5 °C");
            assert_eq!(lines[2], "  Feels like:        17.9 °C");
            assert_eq!(lines[3], "  Local time:        09:05");
            assert_eq!(lines[4], "  12-hour time:      09:05 AM");
            assert_eq!(lines[5], "  Wind (kph):        14.4 kph");
            assert_eq!(lines[6], "  Wind (mph):        8.9 mph");
            assert_eq!(lines[7], "  Humidity:          64 %");
            assert_eq!(lines[8], "  Precipitation:     0.0 mm");
        }
        other => panic!("unexpected {:?}", other),
    }
    assert!(matches!(s.stage, Stage::Finished));
}

#[test]
fn fetch_without_file_is_config_not_found() {
    let (s, _) = Session::start(args(None, false), DisplayUnits::Celsius);
    let (s, a) = s.step(Event::ConfigLoaded(None));
    assert_eq!(abort_of(&a), Some(RunError::ConfigNotFound));
    assert!(matches!(s.stage, Stage::Failed { error: RunError::ConfigNotFound }));
}

#[test]
fn fetch_without_credential_or_location() {
    let (s, _) = Session::start(args(None, false), DisplayUnits::Celsius);
    let (_, a) = s.step(Event::ConfigLoaded(Some(record(None, Some("x")))));
    assert_eq!(abort_of(&a), Some(RunError::MissingCredential));
    let (s, _) = Session::start(args(None, false), DisplayUnits::Celsius);
    let (_, a) = s.step(Event::ConfigLoaded(Some(record(Some("k"), None))));
    assert_eq!(abort_of(&a), Some(RunError::MissingLocation));
}

#[test]
fn setup_needs_a_credential() {
    let (s, _) = Session::start(args(None, true), DisplayUnits::Celsius);
    let (_, a) = s.step(Event::ConfigLoaded(None));
    assert_eq!(abort_of(&a), Some(RunError::ConfigNotFound));
    let (s, _) = Session::start(args(None, true), DisplayUnits::Celsius);
    let (_, a) = s.step(Event::ConfigLoaded(Some(record(Some(""), None))));
    assert_eq!(abort_of(&a), Some(RunError::MissingCredential));
}

#[test]
fn unreadable_config_is_a_parse_error() {
    let (s, _) = Session::start(args(None, false), DisplayUnits::Celsius);
    let (_, a) = s.step(Event::ConfigUnreadable);
    assert_eq!(abort_of(&a), Some(RunError::ConfigParseError));
}

fn searching() -> Session {
    let (s, _) = Session::start(args(None, true), DisplayUnits::Celsius);
    let (s, _) = s.step(Event::ConfigLoaded(Some(record(Some("k"), None))));
    let (s, _) = s.step(Event::QueryEntered("Atlantis".to_string()));
    s
}

#[test]
fn empty_search_reports_no_matches() {
    let (_, a) = searching().step(Event::SearchResults(Vec::new()));
    assert_eq!(abort_of(&a), Some(RunError::EmptySearchResult));
}

#[test]
fn failed_search_is_a_fetch_error() {
    let (_, a) = searching().step(Event::FetchFailed);
    assert_eq!(abort_of(&a), Some(RunError::NetworkOrFetchError));
}

#[test]
fn selection_out_of_range_is_refused() {
    let (s, _) = searching().step(Event::SearchResults(paris()));
    let (_, a) = s.step(Event::SelectionMade(2));
    assert_eq!(abort_of(&a), Some(RunError::InvalidSelectionIndex));
    let (s, _) = searching().step(Event::SearchResults(paris()));
    let (_, a) = s.step(Event::SelectionMade(-1));
    assert_eq!(abort_of(&a), Some(RunError::InvalidSelectionIndex));
}

#[test]
fn failed_write_is_reported() {
    let (s, _) = Session::start(args(Some("k"), false), DisplayUnits::Celsius);
    let (s, _) = s.step(Event::ConfigLoaded(None));
    let (_, a) = s.step(Event::ConfigWriteFailed);
    assert_eq!(abort_of(&a), Some(RunError::ConfigWriteError));
}

#[test]
fn events_out_of_order_end_the_run() {
    let (s, _) = Session::start(args(None, false), DisplayUnits::Celsius);
    let (s, a) = s.step(Event::ConfigWritten);
    assert_eq!(abort_of(&a), Some(RunError::OutOfOrder));
    let (_, a) = s.step(Event::ConfigLoaded(None));
    assert_eq!(abort_of(&a), Some(RunError::OutOfOrder));
}

#[test]
fn setup_flag_reads_true_only() {
    assert!(args(None, true).setup_requested());
    assert!(!args(None, false).setup_requested());
    assert!(!Args { api_key: None, setup: None }.setup_requested());
}
