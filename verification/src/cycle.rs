//! The sync cycle: what the exporter does between a scrape request and the
//! answer to it.
//!
//! The exporter itself never touches the network. Whoever drives it performs
//! each `Action` and reports what came of it as the next `Event`:
//!
//! ```text
//! Idle      -- ScrapeRequested -----> Acquiring   Action::Acquire
//! Acquiring -- ConnectionAcquired --> Querying    Action::Query
//! Acquiring -- ConnectFailed -------> Idle        Action::Serve, nothing to release
//! Querying  -- QueryAnswered -------> Idle        Action::Serve, connection released
//! Querying  -- QueryFailed ---------> Idle        Action::Serve, connection released
//! ```

use vstd::prelude::*;
use crate::key::KeyView;
use crate::name::USER_PREFIX;
use crate::series::{
    keys_are_labels,
    law_answers_keep_keys_labels,
    law_series_are_never_destroyed,
    series_after,
    update_views,
    updates_of,
    SeriesRegistry,
    SeriesUpdate,
    UpdateView,
};
use crate::stat::{stats_query, QueryStatsRequest, Stat};

verus! {

/// Where the exporter stands. `Acquiring` and `Querying` are the two steps of
/// a cycle in progress.
#[derive(Clone, Copy, Debug, PartialEq, Eq, Structural)]
pub enum SyncState {
    /// Waiting for a scrape; no connection is checked out.
    Idle,
    /// A scrape waits while a connection is acquired from the pool.
    Acquiring,
    /// A scrape waits while the query runs on the connection checked out.
    Querying,
}

impl SyncState {
    /// Whether a cycle is in progress.
    pub open spec fn is_syncing(self) -> bool {
        self != SyncState::Idle
    }

    /// Whether a connection is checked out of the pool.
    pub open spec fn holds_connection(self) -> bool {
        self == SyncState::Querying
    }
}

/// What happened outside the exporter.
#[derive(Debug, PartialEq, Eq)]
pub enum Event {
    /// The metrics endpoint received a scrape and waits for fresh values.
    ScrapeRequested,
    /// The pool handed out a connection.
    ConnectionAcquired,
    /// The pool could not hand out a connection.
    ConnectFailed,
    /// The upstream service answered the query with these stats.
    QueryAnswered(Vec<Stat>),
    /// The query failed.
    QueryFailed,
}

/// How a cycle ended.
#[derive(Debug, PartialEq, Eq)]
pub enum Outcome {
    /// The answer was taken in; these are the changes it made.
    Synced(Vec<SeriesUpdate>),
    /// No connection could be acquired; the series are as before.
    ConnectFailed,
    /// The query failed; the series are as before.
    QueryFailed,
}

/// What the exporter asks its driver to do next.
#[derive(Debug, PartialEq, Eq)]
pub enum Action {
    /// Acquire a connection from the pool.
    Acquire,
    /// Send this query on the connection that was acquired.
    Query(QueryStatsRequest),
    /// The cycle is over: return the connection to the pool if `release`
    /// says so, report a failure, and let the scrape be served.
    Serve { release: bool, outcome: Outcome },
}

/// An event that cannot follow the action that the exporter asked for last.
#[derive(Clone, Copy, Debug, PartialEq, Eq, Structural)]
pub enum SyncError {
    UnexpectedEvent,
}

/// What an `Outcome` stands for.
pub ghost enum OutcomeView {
    Synced(Seq<UpdateView>),
    ConnectFailed,
    QueryFailed,
}

/// What an `Action` stands for.
pub ghost enum ActionView {
    Acquire,
    Query { pattern: Seq<char>, reset: bool },
    Serve { release: bool, outcome: OutcomeView },
}

impl View for Outcome {
    type V = OutcomeView;

    open spec fn view(&self) -> OutcomeView {
        match self {
            Outcome::Synced(updates) => OutcomeView::Synced(update_views(updates@)),
            Outcome::ConnectFailed => OutcomeView::ConnectFailed,
            Outcome::QueryFailed => OutcomeView::QueryFailed,
        }
    }
}

impl View for Action {
    type V = ActionView;

    open spec fn view(&self) -> ActionView {
        match self {
            Action::Acquire => ActionView::Acquire,
            Action::Query(request) => ActionView::Query {
                pattern: request.pattern@,
                reset: request.reset,
            },
            Action::Serve { release, outcome } => ActionView::Serve {
                release: *release,
                outcome: outcome@,
            },
        }
    }
}

/// What an answer of `Exporter::step` stands for.
pub open spec fn answer_view(answer: Result<Action, SyncError>) -> Result<ActionView, SyncError> {
    match answer {
        Ok(action) => Ok(action@),
        Err(error) => Err(error),
    }
}

/// What an `Exporter` stands for: its state and the series it exports.
pub ghost struct ExporterView {
    pub state: SyncState,
    pub series: Map<KeyView, i64>,
}

/// Whether `event` can follow the action that an exporter in `state` asked
/// for last.
pub open spec fn accepts(state: SyncState, event: Event) -> bool {
    match state {
        SyncState::Idle => event is ScrapeRequested,
        SyncState::Acquiring => event is ConnectionAcquired || event is ConnectFailed,
        SyncState::Querying => event is QueryAnswered || event is QueryFailed,
    }
}

/// The exporter after `event`. An event that is not accepted changes nothing;
/// of those accepted only an answer to the query changes the series.
pub open spec fn after(before: ExporterView, event: Event) -> ExporterView {
    if !accepts(before.state, event) {
        before
    } else {
        match event {
            Event::ScrapeRequested => ExporterView { state: SyncState::Acquiring, ..before },
            Event::ConnectionAcquired => ExporterView { state: SyncState::Querying, ..before },
            Event::ConnectFailed => ExporterView { state: SyncState::Idle, ..before },
            Event::QueryAnswered(stats) => ExporterView {
                state: SyncState::Idle,
                series: series_after(before.series, stats@),
            },
            Event::QueryFailed => ExporterView { state: SyncState::Idle, ..before },
        }
    }
}

/// What the exporter answers to `event`.
pub open spec fn answer_to(before: ExporterView, event: Event) -> Result<ActionView, SyncError> {
    if !accepts(before.state, event) {
        Err(SyncError::UnexpectedEvent)
    } else {
        Ok(
            match event {
                Event::ScrapeRequested => ActionView::Acquire,
                Event::ConnectionAcquired => ActionView::Query {
                    pattern: USER_PREFIX@,
                    reset: false,
                },
                Event::ConnectFailed => ActionView::Serve {
                    release: false,
                    outcome: OutcomeView::ConnectFailed,
                },
                Event::QueryAnswered(stats) => ActionView::Serve {
                    release: true,
                    outcome: OutcomeView::Synced(updates_of(before.series, stats@)),
                },
                Event::QueryFailed => ActionView::Serve {
                    release: true,
                    outcome: OutcomeView::QueryFailed,
                },
            },
        )
    }
}

/// A cycle whose answer holds no stats leaves every exported series as it
/// was: the exporter is again what it was before the scrape.
pub proof fn law_empty_answer_changes_nothing(before: ExporterView, answer: Event)
    requires
        answer matches Event::QueryAnswered(stats) && stats@.len() == 0,
    ensures
        after(before, answer).series == before.series,
        before.state == SyncState::Idle ==> after(
            after(after(before, Event::ScrapeRequested), Event::ConnectionAcquired),
            answer,
        ) == before,
{
}

/// A cycle that fails, at the acquisition of a connection or at the query,
/// leaves every exported series as it was and creates none: the exporter is
/// again what it was before the scrape.
pub proof fn law_failed_cycle_changes_nothing(before: ExporterView)
    requires
        before.state == SyncState::Idle,
    ensures
        after(after(before, Event::ScrapeRequested), Event::ConnectFailed) == before,
        after(
            after(after(before, Event::ScrapeRequested), Event::ConnectionAcquired),
            Event::QueryFailed,
        ) == before,
{
}

/// Whatever the state, only an answer to a query that is under way changes
/// the exported series.
pub proof fn law_only_answers_change_series(before: ExporterView, event: Event)
    ensures
        after(before, event).series != before.series ==> before.state == SyncState::Querying
            && event is QueryAnswered,
{
}

/// No event destroys a series: whatever was exported before is exported
/// afterwards.
pub proof fn law_no_event_destroys_series(before: ExporterView, event: Event, key: KeyView)
    requires
        before.series.contains_key(key),
    ensures
        after(before, event).series.contains_key(key),
{
    if accepts(before.state, event) {
        if let Event::QueryAnswered(stats) = event {
            law_series_are_never_destroyed(before.series, stats@, key);
        }
    }
}

/// No event creates a series for anything but a decoded name: if the user of
/// every exported series was a label before, it is afterwards.
pub proof fn law_exported_keys_are_labels(before: ExporterView, event: Event)
    requires
        keys_are_labels(before.series),
    ensures
        keys_are_labels(after(before, event).series),
{
    if accepts(before.state, event) {
        if let Event::QueryAnswered(stats) = event {
            law_answers_keep_keys_labels(before.series, stats@);
        }
    }
}

/// A cycle begins with a scrape and with nothing else, and the upstream
/// service is queried only within a cycle: an exporter that is never scraped
/// never asks for a query.
pub proof fn law_scrapes_drive_cycles(before: ExporterView, event: Event)
    ensures
        !before.state.is_syncing() && after(before, event).state.is_syncing()
            ==> event is ScrapeRequested,
        answer_to(before, event) matches Ok(ActionView::Query { .. }) ==> before.state.is_syncing(),
        answer_to(before, event) matches Ok(ActionView::Acquire) ==> event is ScrapeRequested,
{
}

/// A connection is checked out when the pool hands one out and at no other
/// time, and every end of a cycle returns the connection that is checked out:
/// the exporter asks for a release exactly when it holds one, and holds none
/// afterwards.
pub proof fn law_connection_is_returned(before: ExporterView, event: Event)
    requires
        accepts(before.state, event),
    ensures
        after(before, event).state.holds_connection() <==> event is ConnectionAcquired,
        answer_to(before, event) matches Ok(ActionView::Serve { release, .. }) ==> release
            == before.state.holds_connection() && after(before, event).state == SyncState::Idle,
        after(before, event).state == SyncState::Idle ==> answer_to(before, event) matches Ok(
            ActionView::Serve { .. },
        ),
{
}

/// The exporter: the series it exports and the state of the sync cycle.
pub struct Exporter {
    state: SyncState,
    series: SeriesRegistry,
}

impl View for Exporter {
    type V = ExporterView;

    closed spec fn view(&self) -> ExporterView {
        ExporterView { state: self.state, series: self.series@ }
    }
}

impl Exporter {
    /// An idle exporter without any series.
    pub fn new() -> (exporter: Self)
        ensures
            exporter@ == (ExporterView {
                state: SyncState::Idle,
                series: Map::<KeyView, i64>::empty(),
            }),
    {
        Exporter { state: SyncState::Idle, series: SeriesRegistry::new() }
    }

    /// The series that are exported.
    pub fn series(&self) -> (series: &SeriesRegistry)
        ensures
            series@ == self@.series,
    {
        &self.series
    }

    /// Where the exporter stands.
    pub fn state(&self) -> (state: SyncState)
        ensures
            state == self@.state,
    {
        self.state
    }

    /// Takes one event in and says what is to be done next.
    ///
    /// An event that cannot follow the action asked for last is answered with
    /// `SyncError::UnexpectedEvent` and changes nothing.
    pub fn step(&mut self, event: Event) -> (answer: Result<Action, SyncError>)
        ensures
            final(self)@ == after(old(self)@, event),
            answer_view(answer) == answer_to(old(self)@, event),
    {
        match event {
            Event::ScrapeRequested => {
                if self.state != SyncState::Idle {
                    return Err(SyncError::UnexpectedEvent);
                }
                self.state = SyncState::Acquiring;
                Ok(Action::Acquire)
            },
            Event::ConnectionAcquired => {
                if self.state != SyncState::Acquiring {
                    return Err(SyncError::UnexpectedEvent);
                }
                self.state = SyncState::Querying;
                Ok(Action::Query(stats_query()))
            },
            Event::ConnectFailed => {
                if self.state != SyncState::Acquiring {
                    return Err(SyncError::UnexpectedEvent);
                }
                self.state = SyncState::Idle;
                Ok(Action::Serve { release: false, outcome: Outcome::ConnectFailed })
            },
            Event::QueryAnswered(stats) => {
                if self.state != SyncState::Querying {
                    return Err(SyncError::UnexpectedEvent);
                }
                let updates = self.series.apply(stats.as_slice());
                self.state = SyncState::Idle;
                Ok(Action::Serve { release: true, outcome: Outcome::Synced(updates) })
            },
            Event::QueryFailed => {
                if self.state != SyncState::Querying {
                    return Err(SyncError::UnexpectedEvent);
                }
                self.state = SyncState::Idle;
                Ok(Action::Serve { release: true, outcome: Outcome::QueryFailed })
            },
        }
    }
}

} // verus!
