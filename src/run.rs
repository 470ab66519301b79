//! One run of the tool, as a state machine: each event from the world moves the run
//! on and names the next action for the world to perform.

use vstd::prelude::*;
use vstd::string::*;
use crate::config::{
    credential_of, set_field, verify_has_api_key, view_of, with_field, ConfigField, ConfigFile,
};
use crate::error::RunError;
use crate::location::{
    candidate_labels, current_url, current_url_text, label_text, search_url, search_url_text,
    select_candidate, selection_of, LocationCandidate,
};
use crate::report::{display_formated_data, report_lines};
use crate::text::same_text;
use crate::weather::{
    fits_units, formatted_view, get_formated_data, DisplayUnits, WeatherSnapshot,
    ZERO_CELSIUS_IN_KELVIN,
};

verus! {

/// What was asked for on the command line: a credential to store, and whether to run
/// the location setup (`"true"` when so).
#[derive(Debug)]
pub struct Args {
    pub api_key: Option<String>,
    pub setup: Option<String>,
}

impl Args {
    pub open spec fn wants_setup(&self) -> bool {
        self.setup matches Some(s) && s@ == "true"@
    }

    /// Whether the location setup was asked for.
    pub fn setup_requested(&self) -> (r: bool)
        ensures
            r == self.wants_setup(),
    {
        match &self.setup {
            Some(s) => same_text(s.as_str(), "true"),
            None => false,
        }
    }
}

/// Where a run stands, and what it holds on to until the next event.
#[derive(Debug)]
pub enum Stage {
    /// Waiting for the configuration, to store `key` in it.
    StoringKey { key: String },
    /// Waiting for the record with the new credential to be written.
    SavingKey,
    /// Waiting for the configuration, to start the location setup.
    LoadingForSetup,
    /// Waiting for the user's search text.
    AwaitingQuery { config: ConfigFile, api_key: String },
    /// Waiting for the results of a location search.
    Searching { config: ConfigFile },
    /// Waiting for the user to pick one of `candidates`.
    Choosing { config: ConfigFile, candidates: Vec<LocationCandidate> },
    /// Waiting for the record with the chosen location to be written.
    SavingLocation,
    /// Waiting for the configuration, to fetch the weather.
    LoadingForFetch,
    /// Waiting for the current conditions.
    Fetching,
    /// The run is over and went well.
    Finished,
    /// The run is over and failed.
    Failed { error: RunError },
}

/// What the world reports back after an action.
#[derive(Debug)]
pub enum Event {
    /// The configuration file was read: `None` when there is none.
    ConfigLoaded(Option<ConfigFile>),
    /// The configuration file exists but does not hold a record.
    ConfigUnreadable,
    ConfigWritten,
    ConfigWriteFailed,
    QueryEntered(String),
    SearchResults(Vec<LocationCandidate>),
    /// The zero-based position the user picked.
    SelectionMade(i64),
    SnapshotFetched(WeatherSnapshot),
    /// A request to the weather service failed or its answer could not be read.
    FetchFailed,
}

/// What the world is asked to do next.
#[derive(Debug)]
pub enum Action {
    LoadConfig,
    SaveConfig(ConfigFile),
    AskQuery,
    /// Issue a location search at this address.
    Search(String),
    /// Let the user pick one of these lines.
    AskSelection(Vec<String>),
    /// Fetch the current conditions at this address.
    Fetch(String),
    /// Print these lines; the run is then over and went well.
    Show(Vec<String>),
    /// The run is over and went well.
    Finish,
    /// The run is over and failed.
    Abort(RunError),
}

/// One run of the tool: what it waits for, whether the setup is still to come, and the
/// scale to show temperatures in.
#[derive(Debug)]
pub struct Session {
    pub stage: Stage,
    pub setup_pending: bool,
    pub units: DisplayUnits,
}

pub open spec fn aborted(next: Session, act: Action, e: RunError) -> bool {
    &&& next.stage == (Stage::Failed { error: e })
    &&& act == Action::Abort(e)
}

/// How a run begins: a credential given is stored first; else the setup runs when
/// asked for; else the weather is fetched. Each starts by reading the configuration.
pub open spec fn opening(args: Args, units: DisplayUnits, next: Session, act: Action) -> bool {
    &&& next.units == units
    &&& act == Action::LoadConfig
    &&& match args.api_key {
        Some(k) => next.stage == (Stage::StoringKey { key: k }) && next.setup_pending
            == args.wants_setup(),
        None => !next.setup_pending && if args.wants_setup() {
            next.stage == Stage::LoadingForSetup
        } else {
            next.stage == Stage::LoadingForFetch
        },
    }
}

/// The step from `s` on event `e` to `next`, asking for `act`.
pub open spec fn transition(s: Session, e: Event, next: Session, act: Action) -> bool {
    &&& next.units == s.units
    &&& next.setup_pending == s.setup_pending
    &&& match s.stage {
        Stage::StoringKey { key } => match e {
            Event::ConfigLoaded(c) => {
                &&& next.stage == Stage::SavingKey
                &&& act matches Action::SaveConfig(w)
                &&& w@ == with_field(view_of(c), ConfigField::ApiKey, key@)
            },
            Event::ConfigUnreadable => aborted(next, act, RunError::ConfigParseError),
            _ => aborted(next, act, RunError::OutOfOrder),
        },
        Stage::SavingKey => match e {
            Event::ConfigWritten => if s.setup_pending {
                next.stage == Stage::LoadingForSetup && act == Action::LoadConfig
            } else {
                next.stage == Stage::Finished && act == Action::Finish
            },
            Event::ConfigWriteFailed => aborted(next, act, RunError::ConfigWriteError),
            _ => aborted(next, act, RunError::OutOfOrder),
        },
        Stage::LoadingForSetup => match e {
            Event::ConfigLoaded(c) => match credential_of(view_of(c)) {
                Ok(k) => {
                    &&& act == Action::AskQuery
                    &&& next.stage matches Stage::AwaitingQuery { config, api_key }
                    &&& Some(config) == c
                    &&& api_key@ == k
                },
                Err(err) => aborted(next, act, err),
            },
            Event::ConfigUnreadable => aborted(next, act, RunError::ConfigParseError),
            _ => aborted(next, act, RunError::OutOfOrder),
        },
        Stage::AwaitingQuery { config, api_key } => match e {
            Event::QueryEntered(q) => {
                &&& next.stage == (Stage::Searching { config })
                &&& act matches Action::Search(u)
                &&& u@ == search_url_text(api_key@, q@)
            },
            _ => aborted(next, act, RunError::OutOfOrder),
        },
        Stage::Searching { config } => match e {
            Event::SearchResults(cands) => if cands@.len() == 0 {
                aborted(next, act, RunError::EmptySearchResult)
            } else {
                &&& next.stage == (Stage::Choosing { config, candidates: cands })
                &&& act matches Action::AskSelection(labels)
                &&& labels@.len() == cands@.len()
                &&& forall|i: int|
                    0 <= i < labels@.len() ==> #[trigger] labels@[i]@ == label_text(cands@[i])
            },
            Event::FetchFailed => aborted(next, act, RunError::NetworkOrFetchError),
            _ => aborted(next, act, RunError::OutOfOrder),
        },
        Stage::Choosing { config, candidates } => match e {
            Event::SelectionMade(i) => match selection_of(candidates@.len() as int, i as int) {
                Ok(k) => {
                    &&& next.stage == Stage::SavingLocation
                    &&& act matches Action::SaveConfig(w)
                    &&& w@ == with_field(Some(config@), ConfigField::QueryLocation, candidates@[k].url@)
                },
                Err(err) => aborted(next, act, err),
            },
            _ => aborted(next, act, RunError::OutOfOrder),
        },
        Stage::SavingLocation => match e {
            Event::ConfigWritten => next.stage == Stage::Finished && act == Action::Finish,
            Event::ConfigWriteFailed => aborted(next, act, RunError::ConfigWriteError),
            _ => aborted(next, act, RunError::OutOfOrder),
        },
        Stage::LoadingForFetch => match e {
            Event::ConfigLoaded(c) => match credential_of(view_of(c)) {
                Ok(k) => match c->Some_0.query_location {
                    Some(loc) => {
                        &&& next.stage == Stage::Fetching
                        &&& act matches Action::Fetch(u)
                        &&& u@ == current_url_text(k, loc@)
                    },
                    None => aborted(next, act, RunError::MissingLocation),
                },
                Err(err) => aborted(next, act, err),
            },
            Event::ConfigUnreadable => aborted(next, act, RunError::ConfigParseError),
            _ => aborted(next, act, RunError::OutOfOrder),
        },
        Stage::Fetching => match e {
            Event::SnapshotFetched(snap) => if fits_units(snap, s.units) {
                &&& next.stage == Stage::Finished
                &&& act matches Action::Show(lines)
                &&& lines@.len() == report_lines(formatted_view(snap, s.units)).len()
                &&& forall|i: int|
                    0 <= i < lines@.len() ==> #[trigger] lines@[i]@ == report_lines(
                        formatted_view(snap, s.units),
                    )[i]
            } else {
                aborted(next, act, RunError::NetworkOrFetchError)
            },
            Event::FetchFailed => aborted(next, act, RunError::NetworkOrFetchError),
            _ => aborted(next, act, RunError::OutOfOrder),
        },
        Stage::Finished => aborted(next, act, RunError::OutOfOrder),
        Stage::Failed { .. } => aborted(next, act, RunError::OutOfOrder),
    }
}

impl Session {
    /// Starts a run for the given command line, showing temperatures in `units`.
    pub fn start(args: Args, units: DisplayUnits) -> (r: (Session, Action))
        ensures
            opening(args, units, r.0, r.1),
    {
        let setup = args.setup_requested();
        match args.api_key {
            Some(k) => (
                Session { stage: Stage::StoringKey { key: k }, setup_pending: setup, units },
                Action::LoadConfig,
            ),
            None => {
                let stage = if setup {
                    Stage::LoadingForSetup
                } else {
                    Stage::LoadingForFetch
                };
                (Session { stage, setup_pending: false, units }, Action::LoadConfig)
            },
        }
    }

    fn fail(self, error: RunError) -> (r: (Session, Action))
        ensures
            aborted(r.0, r.1, error),
            r.0.units == self.units,
            r.0.setup_pending == self.setup_pending,
    {
        (Session { stage: Stage::Failed { error }, ..self }, Action::Abort(error))
    }

    fn moved(self, stage: Stage, act: Action) -> (r: (Session, Action))
        ensures
            r.0.stage == stage,
            r.1 == act,
            r.0.units == self.units,
            r.0.setup_pending == self.setup_pending,
    {
        (Session { stage, ..self }, act)
    }

    /// Takes one event and says what comes next: the stage that the run moves to and the
    /// action that the world is to perform.
    pub fn step(self, event: Event) -> (r: (Session, Action))
        ensures
            transition(self, event, r.0, r.1),
    {
        let units = self.units;
        let setup_pending = self.setup_pending;
        let s = Session { stage: Stage::Finished, setup_pending, units };
        match self.stage {
            Stage::StoringKey { key } => match event {
                Event::ConfigLoaded(c) => {
                    let w = set_field(c, ConfigField::ApiKey, key);
                    s.moved(Stage::SavingKey, Action::SaveConfig(w))
                },
                Event::ConfigUnreadable => s.fail(RunError::ConfigParseError),
                _ => s.fail(RunError::OutOfOrder),
            },
            Stage::SavingKey => match event {
                Event::ConfigWritten => {
                    if setup_pending {
                        s.moved(Stage::LoadingForSetup, Action::LoadConfig)
                    } else {
                        s.moved(Stage::Finished, Action::Finish)
                    }
                },
                Event::ConfigWriteFailed => s.fail(RunError::ConfigWriteError),
                _ => s.fail(RunError::OutOfOrder),
            },
            Stage::LoadingForSetup => match event {
                Event::ConfigLoaded(c) => match verify_has_api_key(&c) {
                    Ok(api_key) => match c {
                        Some(config) => s.moved(
                            Stage::AwaitingQuery { config, api_key },
                            Action::AskQuery,
                        ),
                        None => s.fail(RunError::ConfigNotFound),
                    },
                    Err(e) => s.fail(e),
                },
                Event::ConfigUnreadable => s.fail(RunError::ConfigParseError),
                _ => s.fail(RunError::OutOfOrder),
            },
            Stage::AwaitingQuery { config, api_key } => match event {
                Event::QueryEntered(q) => {
                    let u = search_url(api_key.as_str(), q.as_str());
                    s.moved(Stage::Searching { config }, Action::Search(u))
                },
                _ => s.fail(RunError::OutOfOrder),
            },
            Stage::Searching { config } => match event {
                Event::SearchResults(cands) => {
                    if cands.len() == 0 {
                        s.fail(RunError::EmptySearchResult)
                    } else {
                        let labels = candidate_labels(&cands);
                        s.moved(
                            Stage::Choosing { config, candidates: cands },
                            Action::AskSelection(labels),
                        )
                    }
                },
                Event::FetchFailed => s.fail(RunError::NetworkOrFetchError),
                _ => s.fail(RunError::OutOfOrder),
            },
            Stage::Choosing { config, candidates } => match event {
                Event::SelectionMade(i) => match select_candidate(candidates, i) {
                    Ok(chosen) => {
                        let w = set_field(Some(config), ConfigField::QueryLocation, chosen.url);
                        s.moved(Stage::SavingLocation, Action::SaveConfig(w))
                    },
                    Err(e) => s.fail(e),
                },
                _ => s.fail(RunError::OutOfOrder),
            },
            Stage::SavingLocation => match event {
                Event::ConfigWritten => s.moved(Stage::Finished, Action::Finish),
                Event::ConfigWriteFailed => s.fail(RunError::ConfigWriteError),
                _ => s.fail(RunError::OutOfOrder),
            },
            Stage::LoadingForFetch => match event {
                Event::ConfigLoaded(c) => match verify_has_api_key(&c) {
                    Ok(api_key) => match c {
                        Some(config) => match config.query_location {
                            Some(loc) => {
                                let u = current_url(api_key.as_str(), loc.as_str());
                                s.moved(Stage::Fetching, Action::Fetch(u))
                            },
                            None => s.fail(RunError::MissingLocation),
                        },
                        None => s.fail(RunError::ConfigNotFound),
                    },
                    Err(e) => s.fail(e),
                },
                Event::ConfigUnreadable => s.fail(RunError::ConfigParseError),
                _ => s.fail(RunError::OutOfOrder),
            },
            Stage::Fetching => match event {
                Event::SnapshotFetched(snap) => {
                    let fits = match units {
                        DisplayUnits::Kelvin => snap.temp_c <= i64::MAX - ZERO_CELSIUS_IN_KELVIN
                            && snap.feelslike_c <= i64::MAX - ZERO_CELSIUS_IN_KELVIN,
                        _ => true,
                    };
                    if fits {
                        let data = get_formated_data(snap, units);
                        let lines = display_formated_data(&data);
                        s.moved(Stage::Finished, Action::Show(lines))
                    } else {
                        s.fail(RunError::NetworkOrFetchError)
                    }
                },
                Event::FetchFailed => s.fail(RunError::NetworkOrFetchError),
                _ => s.fail(RunError::OutOfOrder),
            },
            Stage::Finished => s.fail(RunError::OutOfOrder),
            Stage::Failed { .. } => s.fail(RunError::OutOfOrder),
        }
    }
}

} // verus!
