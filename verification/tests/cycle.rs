use xray_exporter::cycle::{Action, Event, Exporter, Outcome, SyncError, SyncState};
use xray_exporter::key::{Direction, ParsedStatKey, USER_LABEL};
use xray_exporter::series::SeriesUpdate;
use xray_exporter::stat::{stats_query, QueryStatsRequest, Stat};

fn stat(name: &str, value: i64) -> Stat {
    Stat { name: name.to_string(), value }
}

fn update(user: &str, direction: Direction, value: i64, delta: i128) -> SeriesUpdate {
    SeriesUpdate { key: ParsedStatKey { user: user.to_string(), direction }, value, delta }
}

fn the_query() -> QueryStatsRequest {
    QueryStatsRequest { pattern: "user>>>".to_string(), reset: false }
}

/// One cycle in which the upstream service answers with `stats`.
fn sync(exporter: &mut Exporter, stats: Vec<Stat>) -> Vec<SeriesUpdate> {
    assert_eq!(exporter.step(Event::ScrapeRequested), Ok(Action::Acquire));
    assert_eq!(exporter.step(Event::ConnectionAcquired), Ok(Action::Query(the_query())));
    match exporter.step(Event::QueryAnswered(stats)) {
        Ok(Action::Serve { release: true, outcome: Outcome::Synced(updates) }) => updates,
        other => panic!("{:?}", other),
    }
}

#[test]
fn new_exporter_is_idle_and_empty() {
    let exporter = Exporter::new();
    assert_eq!(exporter.state(), SyncState::Idle);
    assert_eq!(exporter.series().get("alice", Direction::Uplink), None);
    assert_eq!(exporter.series().get("alice", Direction::Downlink), None);
}

#[test]
fn query_asks_for_user_stats_without_reset() {
    let request = stats_query();
    assert_eq!(request.pattern, "user>>>");
    assert!(!request.reset);
    assert_eq!(request, the_query());
}

#[test]
fn scrape_starts_a_cycle() {
    let mut exporter = Exporter::new();
    assert_eq!(exporter.step(Event::ScrapeRequested), Ok(Action::Acquire));
    assert_eq!(exporter.state(), SyncState::Acquiring);
}

#[test]
fn acquired_connection_is_queried() {
    let mut exporter = Exporter::new();
    exporter.step(Event::ScrapeRequested).unwrap();
    assert_eq!(exporter.step(Event::ConnectionAcquired), Ok(Action::Query(the_query())));
    assert_eq!(exporter.state(), SyncState::Querying);
}

#[test]
fn first_cycle_exports_what_upstream_reports() {
    let mut exporter = Exporter::new();
    let updates = sync(
        &mut exporter,
        vec![
            stat("user>>>alice>>>traffic>>>uplink", 100),
            stat("user>>>alice>>>traffic>>>downlink", 50),
        ],
    );
    assert_eq!(exporter.series().get("alice", Direction::Uplink), Some(100));
    assert_eq!(exporter.series().get("alice", Direction::Downlink), Some(50));
    assert_eq!(
        updates,
        vec![
            update("alice", Direction::Uplink, 100, 100),
            update("alice", Direction::Downlink, 50, 50),
        ]
    );
    assert_eq!(exporter.state(), SyncState::Idle);
}

#[test]
fn second_cycle_applies_the_difference() {
    let mut exporter = Exporter::new();
    sync(
        &mut exporter,
        vec![
            stat("user>>>alice>>>traffic>>>uplink", 100),
            stat("user>>>alice>>>traffic>>>downlink", 50),
        ],
    );
    let updates = sync(&mut exporter, vec![stat("user>>>alice>>>traffic>>>uplink", 150)]);
    assert_eq!(updates, vec![update("alice", Direction::Uplink, 150, 50)]);
    assert_eq!(exporter.series().get("alice", Direction::Uplink), Some(150));
    assert_eq!(exporter.series().get("alice", Direction::Downlink), Some(50));
}

#[test]
fn unmatched_stat_makes_no_series() {
    let mut exporter = Exporter::new();
    sync(&mut exporter, vec![stat("user>>>alice>>>traffic>>>uplink", 100)]);
    let updates = sync(&mut exporter, vec![stat("totalconnections", 12)]);
    assert_eq!(updates, vec![]);
    assert_eq!(exporter.series().get("totalconnections", Direction::Uplink), None);
    assert_eq!(exporter.series().get("totalconnections", Direction::Downlink), None);
    assert_eq!(exporter.series().get("alice", Direction::Uplink), Some(100));
    assert_eq!(exporter.series().get("alice", Direction::Downlink), None);
}

#[test]
fn failed_connection_keeps_exported_values() {
    let mut exporter = Exporter::new();
    sync(
        &mut exporter,
        vec![
            stat("user>>>alice>>>traffic>>>uplink", 100),
            stat("user>>>bob>>>traffic>>>downlink", 7),
        ],
    );
    assert_eq!(exporter.step(Event::ScrapeRequested), Ok(Action::Acquire));
    assert_eq!(
        exporter.step(Event::ConnectFailed),
        Ok(Action::Serve { release: false, outcome: Outcome::ConnectFailed })
    );
    assert_eq!(exporter.state(), SyncState::Idle);
    assert_eq!(exporter.series().get("alice", Direction::Uplink), Some(100));
    assert_eq!(exporter.series().get("bob", Direction::Downlink), Some(7));
    assert_eq!(exporter.series().get("alice", Direction::Downlink), None);
    assert_eq!(exporter.series().get("bob", Direction::Uplink), None);
}

#[test]
fn failed_query_keeps_exported_values_and_releases() {
    let mut exporter = Exporter::new();
    sync(&mut exporter, vec![stat("user>>>alice>>>traffic>>>uplink", 100)]);
    assert_eq!(exporter.step(Event::ScrapeRequested), Ok(Action::Acquire));
    assert_eq!(exporter.step(Event::ConnectionAcquired), Ok(Action::Query(the_query())));
    assert_eq!(
        exporter.step(Event::QueryFailed),
        Ok(Action::Serve { release: true, outcome: Outcome::QueryFailed })
    );
    assert_eq!(exporter.state(), SyncState::Idle);
    assert_eq!(exporter.series().get("alice", Direction::Uplink), Some(100));
    assert_eq!(exporter.series().get("alice", Direction::Downlink), None);
}

#[test]
fn failed_first_cycle_creates_no_series() {
    let mut exporter = Exporter::new();
    exporter.step(Event::ScrapeRequested).unwrap();
    exporter.step(Event::ConnectFailed).unwrap();
    assert_eq!(exporter.series().get("alice", Direction::Uplink), None);
    exporter.step(Event::ScrapeRequested).unwrap();
    exporter.step(Event::ConnectionAcquired).unwrap();
    exporter.step(Event::QueryFailed).unwrap();
    assert_eq!(exporter.series().get("alice", Direction::Uplink), None);
}

#[test]
fn empty_answer_keeps_exported_values() {
    let mut exporter = Exporter::new();
    sync(
        &mut exporter,
        vec![
            stat("user>>>alice>>>traffic>>>uplink", 100),
            stat("user>>>alice>>>traffic>>>downlink", 50),
        ],
    );
    let updates = sync(&mut exporter, vec![]);
    assert_eq!(updates, vec![]);
    assert_eq!(exporter.series().get("alice", Direction::Uplink), Some(100));
    assert_eq!(exporter.series().get("alice", Direction::Downlink), Some(50));
}

#[test]
fn next_scrape_after_a_failure_tries_again() {
    let mut exporter = Exporter::new();
    exporter.step(Event::ScrapeRequested).unwrap();
    exporter.step(Event::ConnectFailed).unwrap();
    let updates = sync(&mut exporter, vec![stat("user>>>alice>>>traffic>>>uplink", 5)]);
    assert_eq!(updates, vec![update("alice", Direction::Uplink, 5, 5)]);
    assert_eq!(exporter.series().get("alice", Direction::Uplink), Some(5));
}

#[test]
fn upstream_restart_lowers_the_exported_value() {
    let mut exporter = Exporter::new();
    sync(&mut exporter, vec![stat("user>>>alice>>>traffic>>>uplink", 500)]);
    let updates = sync(&mut exporter, vec![stat("user>>>alice>>>traffic>>>uplink", 20)]);
    assert_eq!(updates, vec![update("alice", Direction::Uplink, 20, -480)]);
    assert_eq!(exporter.series().get("alice", Direction::Uplink), Some(20));
}

#[test]
fn idle_exporter_refuses_everything_but_a_scrape() {
    for event in [
        Event::ConnectionAcquired,
        Event::ConnectFailed,
        Event::QueryAnswered(vec![stat("user>>>alice>>>traffic>>>uplink", 1)]),
        Event::QueryFailed,
    ] {
        let mut exporter = Exporter::new();
        assert_eq!(exporter.step(event), Err(SyncError::UnexpectedEvent));
        assert_eq!(exporter.state(), SyncState::Idle);
        assert_eq!(exporter.series().get("alice", Direction::Uplink), None);
    }
}

#[test]
fn acquiring_exporter_refuses_what_is_out_of_turn() {
    for event in [
        Event::ScrapeRequested,
        Event::QueryAnswered(vec![stat("user>>>alice>>>traffic>>>uplink", 1)]),
        Event::QueryFailed,
    ] {
        let mut exporter = Exporter::new();
        exporter.step(Event::ScrapeRequested).unwrap();
        assert_eq!(exporter.step(event), Err(SyncError::UnexpectedEvent));
        assert_eq!(exporter.state(), SyncState::Acquiring);
        assert_eq!(exporter.series().get("alice", Direction::Uplink), None);
    }
}

#[test]
fn querying_exporter_refuses_what_is_out_of_turn() {
    for event in [Event::ScrapeRequested, Event::ConnectionAcquired, Event::ConnectFailed] {
        let mut exporter = Exporter::new();
        exporter.step(Event::ScrapeRequested).unwrap();
        exporter.step(Event::ConnectionAcquired).unwrap();
        assert_eq!(exporter.step(event), Err(SyncError::UnexpectedEvent));
        assert_eq!(exporter.state(), SyncState::Querying);
    }
}

#[test]
fn refused_event_does_not_end_the_cycle() {
    let mut exporter = Exporter::new();
    exporter.step(Event::ScrapeRequested).unwrap();
    exporter.step(Event::ConnectionAcquired).unwrap();
    assert_eq!(exporter.step(Event::ScrapeRequested), Err(SyncError::UnexpectedEvent));
    let answer = exporter.step(Event::QueryAnswered(vec![stat(
        "user>>>alice>>>traffic>>>downlink",
        9,
    )]));
    assert_eq!(
        answer,
        Ok(Action::Serve {
            release: true,
            outcome: Outcome::Synced(vec![update("alice", Direction::Downlink, 9, 9)]),
        })
    );
    assert_eq!(exporter.series().get("alice", Direction::Downlink), Some(9));
}

#[test]
fn metric_families() {
    assert_eq!(Direction::Uplink.metric_name(), "xray_uplink_bytes_total");
    assert_eq!(Direction::Downlink.metric_name(), "xray_downlink_bytes_total");
    assert_eq!(Direction::Uplink.metric_help(), "Xray uplink traffic in bytes");
    assert_eq!(Direction::Downlink.metric_help(), "Xray downlink traffic in bytes");
    assert_eq!(USER_LABEL, "user");
}
