//! Which Season 0 episodes are monitored for download.
use vstd::prelude::*;
use crate::tvdb::TvdbEpisodeExtended;

verus! {

/// Episodes the user excluded in the series folder's exclusion file.
#[derive(Debug, Clone)]
pub struct ManualExcludeConfig {
    /// Episode numbers excluded from monitoring
    pub excluded_episodes: Vec<u8>,
}

/// All Season 0 episodes are monitored unless their number is in the
/// manual exclusion list.
pub struct MonitorPolicy;

impl MonitorPolicy {
    /// Whether an episode is monitored: its number is not in the exclusion
    /// list. The latest season and the episode's other metadata play no part.
    pub fn should_monitor(episode: &TvdbEpisodeExtended, latest_season: u8, manual_exclude_list: &[u8]) -> (r: bool)
        ensures
            r == !manual_exclude_list@.contains(episode.number),
    {
        let mut i: usize = 0;
        while i < manual_exclude_list.len()
            invariant
                i <= manual_exclude_list.len(),
                forall|k: int| 0 <= k < i ==> manual_exclude_list@[k] != episode.number,
            decreases manual_exclude_list.len() - i,
        {
            if manual_exclude_list[i] == episode.number {
                assert(manual_exclude_list@[i as int] == episode.number);
                return false;
            }
            i = i + 1;
        }
        true
    }

    /// The monitored episodes, in their original order.
    pub fn filter_monitored<'a>(episodes: &'a [TvdbEpisodeExtended], latest_season: u8, manual_exclude_list: &[u8]) -> (r: Vec<&'a TvdbEpisodeExtended>)
        ensures
            r@.len() == monitored(episodes@, manual_exclude_list@).len(),
            forall|k: int| 0 <= k < r@.len() ==> *#[trigger] r@[k] == monitored(episodes@, manual_exclude_list@)[k],
    {
        let mut out: Vec<&'a TvdbEpisodeExtended> = Vec::new();
        let mut i: usize = 0;
        assert(episodes@.take(0) =~= seq![]);
        while i < episodes.len()
            invariant
                i <= episodes.len(),
                out@.len() == monitored(episodes@.take(i as int), manual_exclude_list@).len(),
                forall|k: int| 0 <= k < out@.len() ==> *#[trigger] out@[k] == monitored(episodes@.take(i as int), manual_exclude_list@)[k],
            decreases episodes.len() - i,
        {
            assert(episodes@.take(i + 1).drop_last() =~= episodes@.take(i as int));
            assert(episodes@.take(i + 1).last() == episodes@[i as int]);
            if Self::should_monitor(&episodes[i], latest_season, manual_exclude_list) {
                out.push(&episodes[i]);
            }
            i = i + 1;
        }
        assert(episodes@.take(episodes.len() as int) =~= episodes@);
        out
    }
}

/// The episodes whose numbers are not excluded, in order.
pub open spec fn monitored(episodes: Seq<TvdbEpisodeExtended>, excluded: Seq<u8>) -> Seq<TvdbEpisodeExtended>
    decreases episodes.len(),
{
    if episodes.len() == 0 {
        seq![]
    } else {
        let rest = monitored(episodes.drop_last(), excluded);
        if excluded.contains(episodes.last().number) {
            rest
        } else {
            rest.push(episodes.last())
        }
    }
}


/// The monitored episodes are exactly the episodes whose numbers are not
/// excluded: each one kept is an episode of the list and not excluded, and
/// each episode of the list that is not excluded is kept.
pub proof fn law_monitored_exact(episodes: Seq<TvdbEpisodeExtended>, excluded: Seq<u8>)
    ensures
        forall|k: int|
            0 <= k < monitored(episodes, excluded).len() ==> episodes.contains(
                #[trigger] monitored(episodes, excluded)[k],
            ) && !excluded.contains(monitored(episodes, excluded)[k].number),
        forall|i: int|
            0 <= i < episodes.len() && !excluded.contains(#[trigger] episodes[i].number)
                ==> monitored(episodes, excluded).contains(episodes[i]),
    decreases episodes.len(),
{
    if episodes.len() > 0 {
        let prev = episodes.drop_last();
        law_monitored_exact(prev, excluded);
        let m = monitored(episodes, excluded);
        let pm = monitored(prev, excluded);
        assert forall|k: int| 0 <= k < m.len() implies episodes.contains(#[trigger] m[k])
            && !excluded.contains(m[k].number) by {
            if k < pm.len() {
                assert(m[k] == pm[k]);
                let j = choose|j: int| 0 <= j < prev.len() && prev[j] == pm[k];
                assert(episodes[j] == prev[j]);
            } else {
                assert(m[k] == episodes.last());
                assert(episodes[episodes.len() - 1] == episodes.last());
            }
        }
        assert forall|i: int|
            0 <= i < episodes.len() && !excluded.contains(#[trigger] episodes[i].number) implies m.contains(
            episodes[i]) by {
            if i < prev.len() {
                assert(prev[i] == episodes[i]);
                assert(pm.contains(prev[i]));
                let k = choose|k: int| 0 <= k < pm.len() && pm[k] == prev[i];
                assert(m[k] == pm[k]);
            } else {
                assert(m[m.len() - 1] == episodes[i]);
            }
        }
    }
}

} // verus!
