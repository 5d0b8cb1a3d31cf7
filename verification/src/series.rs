//! The exported series and how observations are taken into them.

use vstd::prelude::*;
use vstd::hash_map::StringHashMap;
use crate::key::{Direction, KeyView, ParsedStatKey};
use crate::name::{decode, decoded, is_label, law_decode_exact};
use crate::stat::Stat;

verus! {

/// The value that a series is tracked at in `series`: a series that was never
/// observed counts as zero.
pub open spec fn current_value(series: Map<KeyView, i64>, key: KeyView) -> int {
    if series.contains_key(key) {
        series[key] as int
    } else {
        0
    }
}

/// The series after `stat` was taken in: a stat whose name decodes sets its
/// series to the observed value, any other stat changes nothing.
pub open spec fn series_after_stat(series: Map<KeyView, i64>, stat: Stat) -> Map<KeyView, i64> {
    match decoded(stat.name@) {
        Some(key) => series.insert(key, stat.value),
        None => series,
    }
}

/// The series after `stats` were taken in, one after the other.
pub open spec fn series_after(series: Map<KeyView, i64>, stats: Seq<Stat>) -> Map<KeyView, i64>
    decreases stats.len(),
{
    if stats.len() == 0 {
        series
    } else {
        series_after_stat(series_after(series, stats.drop_last()), stats.last())
    }
}

/// What a `SeriesUpdate` stands for.
pub ghost struct UpdateView {
    pub key: KeyView,
    pub value: i64,
    pub delta: int,
}

/// One change of an exported series: the value it is now tracked at, and the
/// signed difference to the value it was tracked at before.
#[derive(Debug, PartialEq, Eq)]
pub struct SeriesUpdate {
    pub key: ParsedStatKey,
    pub value: i64,
    pub delta: i128,
}

impl View for SeriesUpdate {
    type V = UpdateView;

    open spec fn view(&self) -> UpdateView {
        UpdateView { key: self.key@, value: self.value, delta: self.delta as int }
    }
}

/// What each of `updates` stands for.
pub open spec fn update_views(updates: Seq<SeriesUpdate>) -> Seq<UpdateView> {
    updates.map_values(|update: SeriesUpdate| update@)
}

/// The updates that taking in `stats` makes to `series`, in the order of the
/// stats. A stat whose name does not decode makes none.
pub open spec fn updates_of(series: Map<KeyView, i64>, stats: Seq<Stat>) -> Seq<UpdateView>
    decreases stats.len(),
{
    if stats.len() == 0 {
        Seq::empty()
    } else {
        let earlier = stats.drop_last();
        let stat = stats.last();
        match decoded(stat.name@) {
            Some(key) => updates_of(series, earlier).push(
                UpdateView {
                    key,
                    value: stat.value,
                    delta: stat.value - current_value(series_after(series, earlier), key),
                },
            ),
            None => updates_of(series, earlier),
        }
    }
}

/// The series after the values `observed` of the one series `key` were
/// reconciled, one after the other.
pub open spec fn series_after_observations(
    series: Map<KeyView, i64>,
    key: KeyView,
    observed: Seq<i64>,
) -> Map<KeyView, i64>
    decreases observed.len(),
{
    if observed.len() == 0 {
        series
    } else {
        series_after_observations(series, key, observed.drop_last()).insert(key, observed.last())
    }
}

/// Tracking: after each observation of a series its exported value is the
/// value observed, whatever the series held before and whether the value
/// rose or fell.
pub proof fn law_tracks_latest_observation(
    series: Map<KeyView, i64>,
    key: KeyView,
    observed: Seq<i64>,
    i: int,
)
    requires
        0 <= i < observed.len(),
    ensures
        series_after_observations(series, key, observed.take(i + 1)).contains_key(key),
        series_after_observations(series, key, observed.take(i + 1))[key] == observed[i],
{
    assert(observed.take(i + 1).last() == observed[i]);
}

/// Observations of one series leave every other series as it was, and create
/// no series but their own.
pub proof fn law_observations_touch_one_series(
    series: Map<KeyView, i64>,
    key: KeyView,
    observed: Seq<i64>,
    other: KeyView,
)
    requires
        other != key,
    ensures
        series_after_observations(series, key, observed).contains_key(other)
            == series.contains_key(other),
        series_after_observations(series, key, observed)[other] == series[other],
    decreases observed.len(),
{
    if observed.len() > 0 {
        law_observations_touch_one_series(series, key, observed.drop_last(), other);
    }
}

/// The difference that is reported for an observation is negative exactly
/// when the value observed is below the value held before: the exported
/// value falls only when the upstream counter fell.
pub proof fn law_delta_sign(series: Map<KeyView, i64>, stat: Stat, key: KeyView)
    requires
        decoded(stat.name@) == Some(key),
    ensures
        updates_of(series, seq![stat]) == seq![
            UpdateView { key, value: stat.value, delta: stat.value - current_value(series, key) },
        ],
        series_after(series, seq![stat])[key] == stat.value,
        stat.value >= current_value(series, key) <==> updates_of(series, seq![stat])[0].delta >= 0,
{
    let stats = seq![stat];
    assert(stats.drop_last() =~= Seq::<Stat>::empty());
    assert(stats.last() == stat);
    assert(series_after(series, stats.drop_last()) == series);
    assert(updates_of(series, stats.drop_last()) =~= Seq::<UpdateView>::empty());
    assert(updates_of(series, stats) =~= seq![
        UpdateView { key, value: stat.value, delta: stat.value - current_value(series, key) },
    ]);
}

/// After an answer was taken in, a series that it reports holds the value of
/// the last stat that reports it.
pub proof fn law_last_report_decides(
    series: Map<KeyView, i64>,
    stats: Seq<Stat>,
    i: int,
    key: KeyView,
)
    requires
        0 <= i < stats.len(),
        decoded(stats[i].name@) == Some(key),
        forall|j: int| i < j < stats.len() ==> decoded(#[trigger] stats[j].name@) != Some(key),
    ensures
        series_after(series, stats).contains_key(key),
        series_after(series, stats)[key] == stats[i].value,
    decreases stats.len(),
{
    if i < stats.len() - 1 {
        let earlier = stats.drop_last();
        assert(decoded(stats[stats.len() - 1].name@) != Some(key));
        assert forall|j: int| i < j < earlier.len() implies decoded(#[trigger] earlier[j].name@)
            != Some(key) by {
            assert(earlier[j] == stats[j]);
        }
        law_last_report_decides(series, earlier, i, key);
    }
}

/// An answer leaves every series that it does not report as it was, and
/// creates no series that it does not report. So an answer without stats, or
/// one in which no name decodes, changes nothing.
pub proof fn law_unreported_series_stay(series: Map<KeyView, i64>, stats: Seq<Stat>, key: KeyView)
    requires
        forall|j: int| 0 <= j < stats.len() ==> decoded(#[trigger] stats[j].name@) != Some(key),
    ensures
        series_after(series, stats).contains_key(key) == series.contains_key(key),
        series_after(series, stats)[key] == series[key],
    decreases stats.len(),
{
    if stats.len() > 0 {
        let earlier = stats.drop_last();
        assert(decoded(stats[stats.len() - 1].name@) != Some(key));
        assert forall|j: int| 0 <= j < earlier.len() implies decoded(#[trigger] earlier[j].name@)
            != Some(key) by {
            assert(earlier[j] == stats[j]);
        }
        law_unreported_series_stay(series, earlier, key);
    }
}

/// An answer in which no name decodes leaves the series as a whole unchanged.
pub proof fn law_undecoded_answer_changes_nothing(series: Map<KeyView, i64>, stats: Seq<Stat>)
    requires
        forall|j: int| 0 <= j < stats.len() ==> decoded(#[trigger] stats[j].name@) is None,
    ensures
        series_after(series, stats) == series,
        updates_of(series, stats) == Seq::<UpdateView>::empty(),
    decreases stats.len(),
{
    if stats.len() > 0 {
        let earlier = stats.drop_last();
        assert(decoded(stats[stats.len() - 1].name@) is None);
        assert forall|j: int| 0 <= j < earlier.len() implies decoded(#[trigger] earlier[j].name@)
            is None by {
            assert(earlier[j] == stats[j]);
        }
        law_undecoded_answer_changes_nothing(series, earlier);
    }
}

/// Taking in an answer destroys no series: whatever was exported before is
/// exported afterwards.
pub proof fn law_series_are_never_destroyed(
    series: Map<KeyView, i64>,
    stats: Seq<Stat>,
    key: KeyView,
)
    requires
        series.contains_key(key),
    ensures
        series_after(series, stats).contains_key(key),
    decreases stats.len(),
{
    if stats.len() > 0 {
        law_series_are_never_destroyed(series, stats.drop_last(), key);
    }
}

/// Whether the user of every series in `series` is a label, as the users of
/// decoded names are.
pub open spec fn keys_are_labels(series: Map<KeyView, i64>) -> bool {
    forall|key: KeyView| series.contains_key(key) ==> is_label(key.user)
}

/// Taking in an answer creates series for decoded names only: if the user of
/// every series was a label before, it is afterwards.
pub proof fn law_answers_keep_keys_labels(series: Map<KeyView, i64>, stats: Seq<Stat>)
    requires
        keys_are_labels(series),
    ensures
        keys_are_labels(series_after(series, stats)),
    decreases stats.len(),
{
    if stats.len() > 0 {
        law_answers_keep_keys_labels(series, stats.drop_last());
        if let Some(key) = decoded(stats.last().name@) {
            law_decode_exact(stats.last().name@, key);
        }
    }
}

/// The counters after each of `updates` moved the counter of its series by
/// its difference. A counter that did not exist before starts from zero.
pub open spec fn counters_after(counters: Map<KeyView, int>, updates: Seq<UpdateView>) -> Map<
    KeyView,
    int,
>
    decreases updates.len(),
{
    if updates.len() == 0 {
        counters
    } else {
        let earlier = counters_after(counters, updates.drop_last());
        let update = updates.last();
        let start = if earlier.contains_key(update.key) {
            earlier[update.key]
        } else {
            0
        };
        earlier.insert(update.key, start + update.delta)
    }
}

/// The values of `series` as the counters that show them.
pub open spec fn counters_of(series: Map<KeyView, i64>) -> Map<KeyView, int> {
    series.map_values(|value: i64| value as int)
}

/// Counters that show the exported values, and are then moved by each
/// difference that an answer makes, show the exported values again: the same
/// series exist, and each counter stands at the value of its series.
pub proof fn law_counters_follow_series(series: Map<KeyView, i64>, stats: Seq<Stat>)
    ensures
        counters_after(counters_of(series), updates_of(series, stats)) == counters_of(
            series_after(series, stats),
        ),
    decreases stats.len(),
{
    if stats.len() > 0 {
        let earlier = stats.drop_last();
        let stat = stats.last();
        let held = series_after(series, earlier);
        law_counters_follow_series(series, earlier);
        match decoded(stat.name@) {
            Some(key) => {
                let update = UpdateView {
                    key,
                    value: stat.value,
                    delta: stat.value - current_value(held, key),
                };
                let updates = updates_of(series, earlier).push(update);
                assert(updates.drop_last() =~= updates_of(series, earlier));
                assert(updates.last() == update);
                assert(counters_of(held).insert(key, stat.value as int) =~= counters_of(
                    held.insert(key, stat.value),
                ));
            },
            None => {},
        }
    }
}

/// The exported series: for each user and direction that was ever observed,
/// the value that its counter is tracked at.
pub struct SeriesRegistry {
    uplink: StringHashMap<i64>,
    downlink: StringHashMap<i64>,
}

impl View for SeriesRegistry {
    type V = Map<KeyView, i64>;

    closed spec fn view(&self) -> Map<KeyView, i64> {
        Map::new(
            |key: KeyView| self.family(key.direction).contains_key(key.user),
            |key: KeyView| self.family(key.direction)[key.user],
        )
    }
}

impl SeriesRegistry {
    /// The counters of one direction, by user.
    spec fn family(&self, direction: Direction) -> Map<Seq<char>, i64> {
        match direction {
            Direction::Uplink => self.uplink@,
            Direction::Downlink => self.downlink@,
        }
    }

    /// A registry without any series.
    pub fn new() -> (registry: Self)
        ensures
            registry@ == Map::<KeyView, i64>::empty(),
    {
        let registry = SeriesRegistry { uplink: StringHashMap::new(), downlink: StringHashMap::new() };
        assert(registry@ =~= Map::<KeyView, i64>::empty());
        registry
    }

    /// The value that the series `user`, `direction` is tracked at, or `None`
    /// if it was never observed.
    pub fn get(&self, user: &str, direction: Direction) -> (value: Option<i64>)
        ensures
            ({
                let key = KeyView { user: user@, direction };
                value == if self@.contains_key(key) {
                    Some(self@[key])
                } else {
                    None
                }
            }),
    {
        let found = match direction {
            Direction::Uplink => self.uplink.get(user),
            Direction::Downlink => self.downlink.get(user),
        };
        match found {
            Some(value) => Some(*value),
            None => None,
        }
    }

    /// Takes one observation in: the series `key` is created if it is new,
    /// and is from now on tracked at `observed_value` exactly, whether that is
    /// more or less than before.
    ///
    /// Returns the signed difference between `observed_value` and the value
    /// that the series was tracked at before, zero for a new series.
    pub fn reconcile(&mut self, key: ParsedStatKey, observed_value: i64) -> (delta: i128)
        ensures
            final(self)@ == old(self)@.insert(key@, observed_value),
            delta == observed_value - current_value(old(self)@, key@),
    {
        let current: i64 = match self.get(key.user.as_str(), key.direction) {
            Some(value) => value,
            None => 0,
        };
        let delta: i128 = observed_value as i128 - current as i128;
        let ghost target = key@;
        match key.direction {
            Direction::Uplink => self.uplink.insert(key.user, observed_value),
            Direction::Downlink => self.downlink.insert(key.user, observed_value),
        }
        assert(self@ =~= old(self)@.insert(target, observed_value));
        delta
    }

    /// Takes in the stats of one answer, in their order: each stat whose name
    /// decodes is reconciled with its series, every other stat is passed over.
    ///
    /// Returns one update for each stat that was reconciled.
    pub fn apply(&mut self, stats: &[Stat]) -> (updates: Vec<SeriesUpdate>)
        ensures
            final(self)@ == series_after(old(self)@, stats@),
            update_views(updates@) == updates_of(old(self)@, stats@),
    {
        let mut updates: Vec<SeriesUpdate> = Vec::new();
        let mut i: usize = 0;
        assert(update_views(updates@) =~= updates_of(old(self)@, stats@.take(0)));
        while i < stats.len()
            invariant
                i <= stats.len(),
                self@ == series_after(old(self)@, stats@.take(i as int)),
                update_views(updates@) == updates_of(old(self)@, stats@.take(i as int)),
            decreases stats.len() - i,
        {
            let stat = &stats[i];
            proof {
                assert(stats@.take(i + 1).drop_last() =~= stats@.take(i as int));
                assert(stats@.take(i + 1).last() == stats@[i as int]);
            }
            let ghost before = updates@;
            match decode(stat.name.as_str()) {
                Some(key) => {
                    let delta = self.reconcile(key.clone(), stat.value);
                    let update = SeriesUpdate { key, value: stat.value, delta };
                    updates.push(update);
                    assert(update_views(updates@) =~= update_views(before).push(update@));
                },
                None => {},
            }
            i += 1;
        }
        assert(stats@.take(i as int) =~= stats@);
        updates
    }
}

} // verus!
