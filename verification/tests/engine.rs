use ikuncodeline::api::cache::{get_cached_balance, Timestamp};
use ikuncodeline::api::client::FetchError;
use ikuncodeline::api::{ApiConfig, BalanceData, UserData};
use ikuncodeline::engine::{step, Action, Event, State};

const NOW: u64 = 1_700_000_000;

fn at(secs: u64) -> Timestamp {
    Timestamp { secs, nanos: 0 }
}

fn counters(quota: i64, used_quota: i64) -> UserData {
    UserData { quota, used_quota, request_count: 1, group: "default".to_string() }
}

fn old_record() -> BalanceData {
    BalanceData::from_user_data(&counters(1_000_000, 250_000))
}

fn config() -> ApiConfig {
    ApiConfig {
        enabled: true,
        api_key: "sk-1".to_string(),
        api_url: "https://example.org/balance".to_string(),
        user_id: None,
    }
}

/// What a run did, besides what it showed.
#[derive(Debug, PartialEq, Eq, Default)]
struct Trace {
    resolved_config: bool,
    fetched_with: Option<ApiConfig>,
    stored: Option<BalanceData>,
    steps: usize,
}

fn run(
    cached: Option<BalanceData>,
    needs_refresh: bool,
    settings: Option<ApiConfig>,
    answer: Result<UserData, FetchError>,
) -> (Option<BalanceData>, Trace) {
    let mut trace = Trace::default();
    let mut settings = Some(settings);
    let mut answer = Some(answer);
    let mut state = State::Start;
    let mut event = Event::CacheLoaded { cached, needs_refresh };
    loop {
        let (next_state, action) = step(state, event);
        trace.steps += 1;
        state = next_state;
        match action {
            Action::ResolveConfig => {
                trace.resolved_config = true;
                event = Event::ConfigResolved(settings.take().expect("asked once"));
            }
            Action::Fetch(with) => {
                trace.fetched_with = Some(with);
                event = Event::Fetched(answer.take().expect("asked once"));
            }
            Action::StoreAndServe(balance) => {
                assert_eq!(state, State::Done);
                trace.stored = Some(balance.clone());
                return (Some(balance), trace);
            }
            Action::Serve(balance) => {
                assert_eq!(state, State::Done);
                return (balance, trace);
            }
        }
    }
}

#[test]
fn a_fresh_record_is_served_without_asking() {
    let (cached, needs_refresh) =
        get_cached_balance(Some(old_record()), at(NOW), Some(at(NOW - 299)));
    let (shown, trace) = run(cached, needs_refresh, Some(config()), Ok(counters(5, 1)));
    assert_eq!(shown, Some(old_record()));
    assert_eq!(trace, Trace { steps: 1, ..Trace::default() });
}

#[test]
fn a_stale_record_is_refreshed() {
    let (cached, needs_refresh) =
        get_cached_balance(Some(old_record()), at(NOW), Some(at(NOW - 301)));
    assert!(needs_refresh);
    let (shown, trace) = run(cached, needs_refresh, Some(config()), Ok(counters(2_000_000, 0)));
    let fresh = BalanceData::from_user_data(&counters(2_000_000, 0));
    assert_eq!(shown, Some(fresh.clone()));
    assert_eq!(
        trace,
        Trace { resolved_config: true, fetched_with: Some(config()), stored: Some(fresh), steps: 3 }
    );
}

#[test]
fn a_stale_record_survives_a_failed_fetch() {
    for error in [
        FetchError::Network,
        FetchError::Status(500),
        FetchError::Malformed,
        FetchError::Rejected { message: Some("no".to_string()) },
    ] {
        let (shown, trace) = run(Some(old_record()), true, Some(config()), Err(error));
        assert_eq!(shown, Some(old_record()));
        assert_eq!(trace.stored, None);
        assert_eq!(trace.fetched_with, Some(config()));
        assert_eq!(trace.steps, 3);
    }
}

#[test]
fn a_stale_record_is_served_without_config() {
    let (shown, trace) = run(Some(old_record()), true, None, Ok(counters(5, 1)));
    assert_eq!(shown, Some(old_record()));
    assert_eq!(trace, Trace { resolved_config: true, steps: 2, ..Trace::default() });
}

#[test]
fn nothing_is_shown_without_config_and_cache() {
    let (cached, needs_refresh) = get_cached_balance(None, at(NOW), None);
    let (shown, trace) = run(cached, needs_refresh, None, Ok(counters(5, 1)));
    assert_eq!(shown, None);
    assert_eq!(trace, Trace { resolved_config: true, steps: 2, ..Trace::default() });
}

#[test]
fn nothing_is_shown_without_cache_when_the_fetch_fails() {
    let (shown, trace) = run(None, false, Some(config()), Err(FetchError::Network));
    assert_eq!(shown, None);
    assert_eq!(trace.stored, None);
    assert_eq!(trace.fetched_with, Some(config()));
}

#[test]
fn the_first_answer_is_stored() {
    let (shown, trace) = run(None, false, Some(config()), Ok(counters(1_000_000, 250_000)));
    assert_eq!(shown, Some(old_record()));
    assert_eq!(trace.stored, Some(old_record()));
    assert_eq!(shown.unwrap().format_display(), "$1.50");
}

#[test]
fn each_step_by_itself() {
    assert_eq!(
        step(State::Start, Event::CacheLoaded { cached: Some(old_record()), needs_refresh: false }),
        (State::Done, Action::Serve(Some(old_record())))
    );
    assert_eq!(
        step(State::Start, Event::CacheLoaded { cached: Some(old_record()), needs_refresh: true }),
        (State::AwaitingConfig { cached: Some(old_record()) }, Action::ResolveConfig)
    );
    assert_eq!(
        step(State::Start, Event::CacheLoaded { cached: None, needs_refresh: false }),
        (State::AwaitingConfig { cached: None }, Action::ResolveConfig)
    );
    assert_eq!(
        step(State::Start, Event::CacheLoaded { cached: None, needs_refresh: true }),
        (State::AwaitingConfig { cached: None }, Action::ResolveConfig)
    );
    assert_eq!(
        step(State::AwaitingConfig { cached: None }, Event::ConfigResolved(Some(config()))),
        (State::AwaitingFetch { cached: None }, Action::Fetch(config()))
    );
    assert_eq!(
        step(State::AwaitingConfig { cached: Some(old_record()) }, Event::ConfigResolved(None)),
        (State::Done, Action::Serve(Some(old_record())))
    );
    assert_eq!(
        step(State::AwaitingFetch { cached: Some(old_record()) }, Event::Fetched(Ok(counters(9, 3)))),
        (State::Done, Action::StoreAndServe(BalanceData::from_user_data(&counters(9, 3))))
    );
    assert_eq!(
        step(
            State::AwaitingFetch { cached: Some(old_record()) },
            Event::Fetched(Err(FetchError::Malformed))
        ),
        (State::Done, Action::Serve(Some(old_record())))
    );
}

#[test]
fn an_event_out_of_turn_ends_the_run() {
    assert_eq!(
        step(State::Start, Event::ConfigResolved(Some(config()))),
        (State::Done, Action::Serve(None))
    );
    assert_eq!(
        step(State::Start, Event::Fetched(Ok(counters(9, 3)))),
        (State::Done, Action::Serve(None))
    );
    assert_eq!(
        step(State::AwaitingConfig { cached: Some(old_record()) }, Event::Fetched(Ok(counters(9, 3)))),
        (State::Done, Action::Serve(Some(old_record())))
    );
    assert_eq!(
        step(
            State::AwaitingFetch { cached: Some(old_record()) },
            Event::CacheLoaded { cached: None, needs_refresh: false }
        ),
        (State::Done, Action::Serve(Some(old_record())))
    );
    assert_eq!(
        step(State::AwaitingFetch { cached: None }, Event::ConfigResolved(Some(config()))),
        (State::Done, Action::Serve(None))
    );
}

#[test]
fn a_finished_run_shows_nothing_more() {
    assert_eq!(
        step(State::Done, Event::CacheLoaded { cached: Some(old_record()), needs_refresh: false }),
        (State::Done, Action::Serve(None))
    );
    assert_eq!(
        step(State::Done, Event::Fetched(Ok(counters(9, 3)))),
        (State::Done, Action::Serve(None))
    );
}
