//! The decision that is taken on every invocation: serve the stored balance,
//! ask the remote service and store its answer, or ask and fall back on what
//! is stored.
//!
//! The engine does not read files, the environment or the network. It is a
//! state machine: the caller does what an `Action` asks for and hands the
//! outcome back as an `Event`. A run starts in `State::Start` with the event
//! `CacheLoaded` and ends with `Serve` or `StoreAndServe`.

use vstd::prelude::*;
use crate::api::ApiConfig;
use crate::api::BalanceData;
use crate::api::UserData;
use crate::api::cache::Timestamp;
use crate::api::cache::fresh_at;
use crate::api::client::FetchError;

verus! {

/// Where a run stands.
#[derive(Clone, Debug, PartialEq, Eq)]
pub enum State {
    /// Nothing has happened yet; the cache is to be loaded.
    Start,
    /// The settings are being resolved; `cached` is what the cache held.
    AwaitingConfig { cached: Option<BalanceData> },
    /// The remote service is being asked; `cached` is what the cache held.
    AwaitingFetch { cached: Option<BalanceData> },
    /// The run is over.
    Done,
}

/// What the caller reports.
#[derive(Debug, PartialEq, Eq)]
pub enum Event {
    /// The cache was read: its record, if it holds a valid one, and whether
    /// that record is due for a refresh.
    CacheLoaded { cached: Option<BalanceData>, needs_refresh: bool },
    /// The settings were resolved; `None` where no lookup is possible.
    ConfigResolved(Option<ApiConfig>),
    /// The remote service was asked.
    Fetched(Result<UserData, FetchError>),
}

/// What the caller is to do next.
#[derive(Clone, Debug, PartialEq, Eq)]
pub enum Action {
    /// Resolve the settings and report `ConfigResolved`.
    ResolveConfig,
    /// Ask the remote service once, with these settings, and report `Fetched`.
    Fetch(ApiConfig),
    /// Write the balance to the cache, ignoring any failure, and show it.
    StoreAndServe(BalanceData),
    /// Show the balance, or nothing, and leave the cache as it is.
    Serve(Option<BalanceData>),
}

impl Action {
    /// The action ends the run.
    pub open spec fn is_final(self) -> bool {
        self is StoreAndServe || self is Serve
    }

    /// What the run shows, where the action ends it.
    pub open spec fn shown(self) -> Option<BalanceData> {
        match self {
            Action::StoreAndServe(balance) => Some(balance),
            Action::Serve(balance) => balance,
            _ => None,
        }
    }
}

/// What the cache held, as far as a state remembers it.
pub open spec fn remembered(state: State) -> Option<BalanceData> {
    match state {
        State::AwaitingConfig { cached } => cached,
        State::AwaitingFetch { cached } => cached,
        _ => None,
    }
}

/// The transition: the state after `event` and the action that it calls for.
///
/// A record that needs no refresh is served at once. Otherwise the settings
/// are resolved, and with settings the service is asked. Its answer is
/// normalised, stored and served; without settings, or where the service gives
/// no answer, the record is served, however old. An event that the state does
/// not wait for ends the run with what the state remembers.
pub open spec fn next(state: State, event: Event) -> (State, Action) {
    match (state, event) {
        (State::Start, Event::CacheLoaded { cached: Some(balance), needs_refresh: false }) => (
            State::Done,
            Action::Serve(Some(balance)),
        ),
        (State::Start, Event::CacheLoaded { cached, needs_refresh }) => (
            State::AwaitingConfig { cached },
            Action::ResolveConfig,
        ),
        (State::AwaitingConfig { cached }, Event::ConfigResolved(Some(config))) => (
            State::AwaitingFetch { cached },
            Action::Fetch(config),
        ),
        (State::AwaitingFetch { cached }, Event::Fetched(Ok(data))) => (
            State::Done,
            Action::StoreAndServe(BalanceData::normalized(data)),
        ),
        (state, _) => (State::Done, Action::Serve(remembered(state))),
    }
}

/// Takes one step of the run.
pub fn step(state: State, event: Event) -> (out: (State, Action))
    ensures
        out == next(state, event),
{
    match state {
        State::Start => match event {
            Event::CacheLoaded { cached, needs_refresh } => {
                if cached.is_some() && !needs_refresh {
                    (State::Done, Action::Serve(cached))
                } else {
                    (State::AwaitingConfig { cached }, Action::ResolveConfig)
                }
            },
            _ => (State::Done, Action::Serve(None)),
        },
        State::AwaitingConfig { cached } => match event {
            Event::ConfigResolved(Some(config)) => (
                State::AwaitingFetch { cached },
                Action::Fetch(config),
            ),
            _ => (State::Done, Action::Serve(cached)),
        },
        State::AwaitingFetch { cached } => match event {
            Event::Fetched(Ok(data)) => (
                State::Done,
                Action::StoreAndServe(BalanceData::from_user_data(&data)),
            ),
            _ => (State::Done, Action::Serve(cached)),
        },
        State::Done => (State::Done, Action::Serve(None)),
    }
}

/// How a run ends: what is shown, and what was done on the way.
pub struct Resolution {
    pub shown: Option<BalanceData>,
    /// The balance was written to the cache.
    pub stored: bool,
    /// The settings were resolved.
    pub resolved_config: bool,
    /// The remote service was asked.
    pub fetched: bool,
}

/// The outcome of an invocation, given what each collaborator would answer
/// if asked: the cache with `cached` and `needs_refresh`, the resolver with
/// `config`, the remote service with `answer`.
pub open spec fn resolve_balance(
    cached: Option<BalanceData>,
    needs_refresh: bool,
    config: Option<ApiConfig>,
    answer: Result<UserData, FetchError>,
) -> Resolution {
    if cached is Some && !needs_refresh {
        Resolution { shown: cached, stored: false, resolved_config: false, fetched: false }
    } else if config is None {
        Resolution { shown: cached, stored: false, resolved_config: true, fetched: false }
    } else {
        match answer {
            Ok(data) => Resolution {
                shown: Some(BalanceData::normalized(data)),
                stored: true,
                resolved_config: true,
                fetched: true,
            },
            Err(_) => Resolution { shown: cached, stored: false, resolved_config: true, fetched: true },
        }
    }
}

/// How an action that ends a run is told as a `Resolution`.
pub open spec fn ending(action: Action, resolved_config: bool, fetched: bool) -> Resolution {
    Resolution {
        shown: action.shown(),
        stored: action is StoreAndServe,
        resolved_config,
        fetched,
    }
}

/// The outcome of a run of the machine in which the caller does what each
/// action asks for: it loads the cache, resolves the settings when asked to,
/// and asks the remote service when asked to.
pub open spec fn run(
    cached: Option<BalanceData>,
    needs_refresh: bool,
    config: Option<ApiConfig>,
    answer: Result<UserData, FetchError>,
) -> Resolution {
    let first = next(State::Start, Event::CacheLoaded { cached, needs_refresh });
    if first.1.is_final() {
        ending(first.1, false, false)
    } else {
        let second = next(first.0, Event::ConfigResolved(config));
        if second.1.is_final() {
            ending(second.1, true, false)
        } else {
            let third = next(second.0, Event::Fetched(answer));
            ending(third.1, true, true)
        }
    }
}

/// The machine decides as `resolve_balance` says. On the way it asks for
/// nothing but the settings, after the cache, and the remote service, after
/// the settings and with them; and the run is over after the answer at the
/// latest.
pub proof fn lemma_run_is_resolve_balance(
    cached: Option<BalanceData>,
    needs_refresh: bool,
    config: Option<ApiConfig>,
    answer: Result<UserData, FetchError>,
)
    ensures
        run(cached, needs_refresh, config, answer) == resolve_balance(
            cached,
            needs_refresh,
            config,
            answer,
        ),
        ({
            let first = next(State::Start, Event::CacheLoaded { cached, needs_refresh });
            let second = next(first.0, Event::ConfigResolved(config));
            let third = next(second.0, Event::Fetched(answer));
            &&& first.1.is_final() || first.1 is ResolveConfig
            &&& first.1.is_final() <==> first.0 is Done
            &&& !first.1.is_final() ==> (second.1.is_final() || second.1 == Action::Fetch(
                config->0,
            ))
            &&& !first.1.is_final() ==> (second.1.is_final() <==> second.0 is Done)
            &&& !first.1.is_final() && !second.1.is_final() ==> third.1.is_final() && third.0 is Done
        }),
{
}

/// A record that is still fresh is served as it is: the settings are not
/// resolved, the remote service is not asked, the cache is not written.
pub proof fn lemma_fresh_record_is_served(
    record: BalanceData,
    config: Option<ApiConfig>,
    answer: Result<UserData, FetchError>,
)
    ensures
        resolve_balance(Some(record), false, config, answer) == (Resolution {
            shown: Some(record),
            stored: false,
            resolved_config: false,
            fetched: false,
        }),
        next(State::Start, Event::CacheLoaded { cached: Some(record), needs_refresh: false }) == (
            State::Done,
            Action::Serve(Some(record)),
        ),
{
}

/// What was read from the cache is served at once exactly where it is a
/// record whose file is still fresh; in every other case a refresh is
/// attempted.
pub proof fn lemma_served_at_once_iff_fresh(
    record: Option<BalanceData>,
    now: Timestamp,
    modified: Option<Timestamp>,
)
    ensures
        ({
            let needs_refresh = record is Some && !fresh_at(now, modified);
            let first = next(State::Start, Event::CacheLoaded { cached: record, needs_refresh });
            &&& first.1.is_final() <==> (record is Some && fresh_at(now, modified))
            &&& first.1.is_final() ==> first.1 == Action::Serve(record)
            &&& !first.1.is_final() ==> first.1 is ResolveConfig
        }),
{
}

/// Without a fresh record a refresh is attempted: the settings are resolved,
/// and with settings the remote service is asked.
pub proof fn lemma_stale_record_is_refreshed(
    cached: Option<BalanceData>,
    needs_refresh: bool,
    config: Option<ApiConfig>,
    answer: Result<UserData, FetchError>,
)
    requires
        cached is None || needs_refresh,
    ensures
        resolve_balance(cached, needs_refresh, config, answer).resolved_config,
        resolve_balance(cached, needs_refresh, config, answer).fetched <==> config is Some,
        next(State::Start, Event::CacheLoaded { cached, needs_refresh }) == (
            State::AwaitingConfig { cached },
            Action::ResolveConfig,
        ),
{
}

/// Where the remote service gives no answer, what the cache held is shown
/// unchanged, however old, and the cache is not written.
pub proof fn lemma_failed_fetch_falls_back(
    cached: Option<BalanceData>,
    needs_refresh: bool,
    config: Option<ApiConfig>,
    error: FetchError,
)
    ensures
        resolve_balance(cached, needs_refresh, config, Err(error)).shown == cached,
        !resolve_balance(cached, needs_refresh, config, Err(error)).stored,
        next(State::AwaitingFetch { cached }, Event::Fetched(Err(error))) == (
            State::Done,
            Action::Serve(cached),
        ),
{
}

/// Without settings nothing is asked of the remote service: what the cache
/// held is shown, and nothing where it held nothing.
pub proof fn lemma_without_config_nothing_is_fetched(
    cached: Option<BalanceData>,
    needs_refresh: bool,
    answer: Result<UserData, FetchError>,
)
    ensures
        resolve_balance(cached, needs_refresh, None, answer).shown == cached,
        !resolve_balance(cached, needs_refresh, None, answer).fetched,
        !resolve_balance(cached, needs_refresh, None, answer).stored,
        next(State::AwaitingConfig { cached }, Event::ConfigResolved(None)) == (
            State::Done,
            Action::Serve(cached),
        ),
{
}

/// The cache is written only with the normalised answer of the remote
/// service, and then that answer is shown.
pub proof fn lemma_only_an_answer_is_stored(state: State, event: Event)
    ensures
        next(state, event).1 is StoreAndServe <==> (state is AwaitingFetch
            && event matches Event::Fetched(Ok(_))),
        event matches Event::Fetched(Ok(data)) ==> (state is AwaitingFetch ==> next(state, event).1
            == Action::StoreAndServe(BalanceData::normalized(data))),
{
}

/// Whatever a run shows that is not a fresh answer is what the cache held.
pub proof fn lemma_shown_is_answer_or_record(
    cached: Option<BalanceData>,
    needs_refresh: bool,
    config: Option<ApiConfig>,
    answer: Result<UserData, FetchError>,
)
    ensures
        resolve_balance(cached, needs_refresh, config, answer).stored ==> (answer matches Ok(data)
            && resolve_balance(cached, needs_refresh, config, answer).shown == Some(
            BalanceData::normalized(data),
        )),
        !resolve_balance(cached, needs_refresh, config, answer).stored ==> resolve_balance(
            cached,
            needs_refresh,
            config,
            answer,
        ).shown == cached,
{
}

/// The remote service is asked at most once in a run, and the settings are
/// resolved at most once: the settings are asked for only at the start, the
/// service only after the settings, and after the service was asked the run
/// is over.
pub proof fn lemma_asked_at_most_once(state: State, event: Event)
    ensures
        next(state, event).1 is ResolveConfig <==> (state is Start && (
        event matches Event::CacheLoaded { cached, needs_refresh } && (cached is None
            || needs_refresh))),
        next(state, event).1 is ResolveConfig ==> next(state, event).0 is AwaitingConfig,
        next(state, event).1 is Fetch <==> (state is AwaitingConfig && (
        event matches Event::ConfigResolved(Some(_)))),
        next(state, event).1 is Fetch ==> next(state, event).0 is AwaitingFetch,
        state is AwaitingConfig ==> !(next(state, event).0 is Start) && !(next(state, event).0
            is AwaitingConfig),
        state is AwaitingFetch || state is Done ==> next(state, event).0 is Done,
{
}

/// Every run ends: after three events the machine is done, whatever the
/// events were, and once done it stays so and shows nothing more.
pub proof fn lemma_run_ends(first: Event, second: Event, third: Event, later: Event)
    ensures
        next(next(next(State::Start, first).0, second).0, third).0 is Done,
        next(State::Done, later) == (State::Done, Action::Serve(None)),
{
}

} // verus!
