//! Tier-based fuzzy deduplication of discovered videos.
//!
//! Two videos are duplicates when their normalized titles are at least 95%
//! similar, or at least 80% similar with durations within 10% of the longer
//! one. Of two duplicates the video from the higher tier (lower tier number)
//! stays; within one tier the one whose source comes earlier in the active
//! source list stays. Pairs are examined in index order (i, then each later
//! j), skipping any j already removed.
use vstd::prelude::*;
use crate::fuzzy_matching::{FuzzyMatcher, title_similarity};
use crate::models::{SeriesExtra, Source, SourceType, VideoSource, source_tier, source_type_tier};

verus! {

/// What deduplication looks at in one item.
pub struct DedupKey {
    pub title: String,
    pub duration: Option<u32>,
    pub tier: u8,
    pub order: usize,
}

/// Spec-level view of a deduplication key.
pub struct DedupKeyView {
    pub title: Seq<char>,
    pub duration: Option<u32>,
    pub tier: u8,
    pub order: usize,
}

impl View for DedupKey {
    type V = DedupKeyView;

    open spec fn view(&self) -> DedupKeyView {
        DedupKeyView {
            title: self.title@,
            duration: self.duration,
            tier: self.tier,
            order: self.order,
        }
    }
}

/// Views of a sequence of keys.
pub open spec fn key_views(keys: Seq<DedupKey>) -> Seq<DedupKeyView> {
    Seq::new(keys.len(), |i: int| keys[i]@)
}

/// Two durations are within 10% of the longer one (and not both zero).
pub open spec fn durations_close(d1: u32, d2: u32) -> bool {
    let m = if d1 >= d2 {
        d1
    } else {
        d2
    };
    let diff = if d1 >= d2 {
        d1 - d2
    } else {
        d2 - d1
    };
    m > 0 && 10 * diff <= m
}

/// A similarity score and two durations make a duplicate pair.
pub open spec fn duplicate_by(sim: nat, d1: Option<u32>, d2: Option<u32>) -> bool {
    sim >= 95 || (sim >= 80 && match (d1, d2) {
        (Some(a), Some(b)) => durations_close(a, b),
        _ => false,
    })
}

pub open spec fn is_dup(keys: Seq<DedupKeyView>, i: int, j: int) -> bool {
    duplicate_by(title_similarity(keys[i].title, keys[j].title), keys[i].duration, keys[j].duration)
}

/// Of two duplicates, the index that is removed: the higher tier number, or
/// within one tier the later position in the active source list (the second
/// index on a tie).
pub open spec fn loser(keys: Seq<DedupKeyView>, i: int, j: int) -> int {
    if keys[i].tier != keys[j].tier {
        if keys[i].tier < keys[j].tier {
            j
        } else {
            i
        }
    } else if keys[i].order <= keys[j].order {
        j
    } else {
        i
    }
}

/// One pair (i, j) examined: when j is still present and the pair is a
/// duplicate, the loser is marked removed.
pub open spec fn step_pair(keys: Seq<DedupKeyView>, mask: Seq<bool>, i: int, j: int) -> Seq<bool> {
    if mask[j] {
        mask
    } else if is_dup(keys, i, j) {
        mask.update(loser(keys, i, j), true)
    } else {
        mask
    }
}

/// The pairs (i, j), (i, j + 1), ... examined in turn.
pub open spec fn inner_pass(keys: Seq<DedupKeyView>, mask: Seq<bool>, i: int, j: int) -> Seq<bool>
    decreases keys.len() - j,
{
    if j >= keys.len() || j < 0 {
        mask
    } else {
        inner_pass(keys, step_pair(keys, mask, i, j), i, j + 1)
    }
}

/// The items i, i + 1, ... examined in turn; an item already removed is
/// skipped.
pub open spec fn outer_pass(keys: Seq<DedupKeyView>, mask: Seq<bool>, i: int) -> Seq<bool>
    decreases keys.len() - i,
{
    if i >= keys.len() || i < 0 {
        mask
    } else {
        outer_pass(
            keys,
            if mask[i] {
                mask
            } else {
                inner_pass(keys, mask, i, i + 1)
            },
            i + 1,
        )
    }
}

/// Which items deduplication removes.
pub open spec fn removal_mask(keys: Seq<DedupKeyView>) -> Seq<bool> {
    outer_pass(keys, Seq::new(keys.len(), |k: int| false), 0)
}

/// The items whose mask entry is false, in order.
pub open spec fn kept<T>(items: Seq<T>, mask: Seq<bool>) -> Seq<T>
    decreases items.len(),
{
    if items.len() == 0 {
        seq![]
    } else {
        let rest = kept(items.drop_last(), mask.take(items.len() - 1));
        if mask[items.len() - 1] {
            rest
        } else {
            rest.push(items.last())
        }
    }
}

/// Number of true entries.
pub open spec fn count_true(mask: Seq<bool>) -> nat
    decreases mask.len(),
{
    if mask.len() == 0 {
        0
    } else {
        count_true(mask.drop_last()) + (if mask.last() {
            1nat
        } else {
            0nat
        })
    }
}

proof fn lemma_step_len(keys: Seq<DedupKeyView>, mask: Seq<bool>, i: int, j: int)
    requires
        mask.len() == keys.len(),
        0 <= i < keys.len(),
        0 <= j < keys.len(),
    ensures
        step_pair(keys, mask, i, j).len() == keys.len(),
{
}

proof fn lemma_inner_len(keys: Seq<DedupKeyView>, mask: Seq<bool>, i: int, j: int)
    requires
        mask.len() == keys.len(),
        0 <= i < keys.len(),
    ensures
        inner_pass(keys, mask, i, j).len() == keys.len(),
    decreases keys.len() - j,
{
    if !(j >= keys.len() || j < 0) {
        lemma_inner_len(keys, step_pair(keys, mask, i, j), i, j + 1);
    }
}

/// Whether two keys make a duplicate pair.
fn is_duplicate(a: &DedupKey, b: &DedupKey) -> (r: bool)
    ensures
        r == duplicate_by(title_similarity(a.title@, b.title@), a.duration, b.duration),
{
    let similarity = FuzzyMatcher::get_similarity_score(a.title.as_str(), b.title.as_str());
    if similarity >= 95 {
        true
    } else if similarity >= 80 {
        match (a.duration, b.duration) {
            (Some(d1), Some(d2)) => {
                let m = if d1 >= d2 {
                    d1
                } else {
                    d2
                };
                let diff = if d1 >= d2 {
                    d1 - d2
                } else {
                    d2 - d1
                };
                m > 0 && 10 * (diff as u64) <= m as u64
            },
            _ => false,
        }
    } else {
        false
    }
}

/// Which of two duplicates to remove: the higher tier number, or within one
/// tier the later position in the active source list.
pub fn pick_loser(keys: &Vec<DedupKey>, i: usize, j: usize) -> (r: usize)
    requires
        i < keys.len(),
        j < keys.len(),
    ensures
        r == loser(key_views(keys@), i as int, j as int),
{
    let tier_i = keys[i].tier;
    let tier_j = keys[j].tier;
    if tier_i != tier_j {
        if tier_i < tier_j {
            j
        } else {
            i
        }
    } else {
        let order_i = keys[i].order;
        let order_j = keys[j].order;
        if order_i <= order_j {
            j
        } else {
            i
        }
    }
}

/// Pairwise duplicate detection over all keys; entry k of the result says
/// whether item k is removed.
pub fn find_duplicate_indices(keys: &Vec<DedupKey>) -> (r: Vec<bool>)
    ensures
        r@ == removal_mask(key_views(keys@)),
{
    let ghost ks = key_views(keys@);
    let n = keys.len();
    let mut mask: Vec<bool> = Vec::new();
    let mut k: usize = 0;
    while k < n
        invariant
            k <= n,
            n == keys.len(),
            mask@ == Seq::new(k as nat, |x: int| false),
        decreases n - k,
    {
        mask.push(false);
        k = k + 1;
        assert(mask@ =~= Seq::new(k as nat, |x: int| false));
    }
    let mut i: usize = 0;
    while i < n
        invariant
            i <= n,
            n == keys.len(),
            ks == key_views(keys@),
            mask@.len() == n,
            outer_pass(ks, mask@, i as int) == removal_mask(ks),
        decreases n - i,
    {
        if !mask[i] {
            let mut j: usize = i + 1;
            while j < n
                invariant
                    i < n,
                    i + 1 <= j <= n,
                    n == keys.len(),
                    ks == key_views(keys@),
                    mask@.len() == n,
                    outer_pass(ks, inner_pass(ks, mask@, i as int, j as int), i + 1)
                        == removal_mask(ks),
                decreases n - j,
            {
                if !mask[j] {
                    if is_duplicate(&keys[i], &keys[j]) {
                        let l = pick_loser(keys, i, j);
                        mask.set(l, true);
                    }
                }
                j = j + 1;
            }
            proof {
                assert(inner_pass(ks, mask@, i as int, j as int) == mask@);
            }
        }
        i = i + 1;
    }
    mask
}

proof fn lemma_kept_step<T>(items: Seq<T>, mask: Seq<bool>, i: int)
    requires
        0 <= i < items.len(),
        mask.len() == items.len(),
    ensures
        kept(items.take(i + 1), mask.take(i + 1)) == (if mask[i] {
            kept(items.take(i), mask.take(i))
        } else {
            kept(items.take(i), mask.take(i)).push(items[i])
        }),
        count_true(mask.take(i + 1)) == count_true(mask.take(i)) + (if mask[i] {
            1nat
        } else {
            0nat
        }),
{
    assert(items.take(i + 1).drop_last() =~= items.take(i));
    assert(mask.take(i + 1).take(i) =~= mask.take(i));
    assert(mask.take(i + 1).drop_last() =~= mask.take(i));
}

proof fn lemma_count_true_le(mask: Seq<bool>)
    ensures
        count_true(mask) <= mask.len(),
    decreases mask.len(),
{
    if mask.len() > 0 {
        lemma_count_true_le(mask.drop_last());
    }
}

/// The items whose entry in `mask` is false, and the number removed.
pub fn keep_unmasked<T>(items: Vec<T>, mask: &Vec<bool>) -> (r: (Vec<T>, usize))
    requires
        mask.len() == items.len(),
    ensures
        r.0@ == kept(items@, mask@),
        r.1 == count_true(mask@),
{
    let ghost orig = items@;
    let n = items.len();
    let mut out: Vec<T> = Vec::new();
    let mut removed: usize = 0;
    let mut i: usize = 0;
    let mut rest = items;
    assert(orig.take(0) =~= seq![]);
    assert(mask@.take(0) =~= seq![]);
    assert(orig.skip(0) =~= orig);
    while i < n
        invariant
            i <= n,
            n == orig.len(),
            mask@.len() == n,
            rest@ == orig.skip(i as int),
            out@ == kept(orig.take(i as int), mask@.take(i as int)),
            removed == count_true(mask@.take(i as int)),
            removed <= i,
        decreases n - i,
    {
        proof {
            lemma_kept_step(orig, mask@, i as int);
            lemma_count_true_le(mask@.take(i + 1));
        }
        let x = rest.remove(0);
        assert(rest@ =~= orig.skip(i + 1));
        if mask[i] {
            removed = removed + 1;
        } else {
            out.push(x);
        }
        i = i + 1;
    }
    assert(orig.take(n as int) =~= orig);
    assert(mask@.take(n as int) =~= mask@);
    (out, removed)
}

} // verus!

verus! {

/// Position of the first occurrence of `x` in `s`.
pub open spec fn first_position(s: Seq<Source>, x: Source) -> Option<nat>
    decreases s.len(),
{
    if s.len() == 0 {
        None
    } else {
        match first_position(s.drop_last(), x) {
            Some(p) => Some(p),
            None => if s.last() == x {
                Some((s.len() - 1) as nat)
            } else {
                None
            },
        }
    }
}

/// The selectable source that a provider corresponds to; KinoCheck and
/// TheTVDB have none.
pub open spec fn selectable_source(st: SourceType) -> Option<Source> {
    match st {
        SourceType::TMDB => Some(Source::Tmdb),
        SourceType::ArchiveOrg => Some(Source::Archive),
        SourceType::YouTube => Some(Source::Youtube),
        SourceType::Dailymotion => Some(Source::Dailymotion),
        SourceType::Vimeo => Some(Source::Vimeo),
        SourceType::Bilibili => Some(Source::Bilibili),
        SourceType::KinoCheck => None,
        SourceType::TheTVDB => None,
    }
}

/// Position of a provider's source in the active source list; `usize::MAX`
/// when it is not there or not selectable, so that it loses every tie.
pub open spec fn source_position(st: SourceType, active: Seq<Source>) -> usize {
    match selectable_source(st) {
        Some(s) => match first_position(active, s) {
            Some(p) => p as usize,
            None => usize::MAX,
        },
        None => usize::MAX,
    }
}

/// Map a provider to its user-selectable source.
pub fn source_type_to_source(st: &SourceType) -> (r: Option<Source>)
    ensures
        r == selectable_source(*st),
{
    match st {
        SourceType::TMDB => Some(Source::Tmdb),
        SourceType::ArchiveOrg => Some(Source::Archive),
        SourceType::YouTube => Some(Source::Youtube),
        SourceType::Dailymotion => Some(Source::Dailymotion),
        SourceType::Vimeo => Some(Source::Vimeo),
        SourceType::Bilibili => Some(Source::Bilibili),
        SourceType::KinoCheck | SourceType::TheTVDB => None,
    }
}

/// Position of a provider's source in the active source list.
pub fn source_order(source_type: &SourceType, active_sources: &[Source]) -> (r: usize)
    ensures
        r == source_position(*source_type, active_sources@),
{
    match source_type_to_source(source_type) {
        Some(s) => {
            let mut i: usize = 0;
            assert(active_sources@.take(0) =~= seq![]);
            while i < active_sources.len()
                invariant
                    i <= active_sources.len(),
                    selectable_source(*source_type) == Some(s),
                    first_position(active_sources@.take(i as int), s) is None,
                decreases active_sources.len() - i,
            {
                assert(active_sources@.take(i + 1).drop_last() =~= active_sources@.take(i as int));
                if active_sources[i] == s {
                    proof {
                        lemma_first_position_extends(active_sources@, s, i as int);
                    }
                    return i;
                }
                i = i + 1;
            }
            assert(active_sources@.take(active_sources.len() as int) =~= active_sources@);
            usize::MAX
        },
        None => usize::MAX,
    }
}

proof fn lemma_first_position_extends(s: Seq<Source>, x: Source, i: int)
    requires
        0 <= i < s.len(),
        s[i] == x,
        first_position(s.take(i), x) is None,
    ensures
        first_position(s, x) == Some(i as nat),
    decreases s.len(),
{
    assert(s.take(i + 1).drop_last() =~= s.take(i));
    if s.len() > i + 1 {
        assert(s.drop_last().take(i) =~= s.take(i));
        lemma_first_position_extends(s.drop_last(), x, i);
    } else {
        assert(s.take(i + 1) =~= s);
    }
}

/// Deduplication keys of videos: title, duration, tier and position of the
/// source in the active list.
pub open spec fn video_keys(s: Seq<VideoSource>, active: Seq<Source>) -> Seq<DedupKeyView> {
    Seq::new(
        s.len(),
        |i: int|
            DedupKeyView {
                title: s[i].title@,
                duration: s[i].duration_secs,
                tier: source_type_tier(s[i].source_type),
                order: source_position(s[i].source_type, active),
            },
    )
}

/// Deduplication keys of series extras.
pub open spec fn extra_keys(s: Seq<SeriesExtra>, active: Seq<Source>) -> Seq<DedupKeyView> {
    Seq::new(
        s.len(),
        |i: int|
            DedupKeyView {
                title: s[i].title@,
                duration: s[i].duration_secs,
                tier: source_type_tier(s[i].source_type),
                order: source_position(s[i].source_type, active),
            },
    )
}

/// Deduplicate videos by title similarity and duration; returns the kept
/// videos in their original order and the number removed.
pub fn deduplicate(sources: Vec<VideoSource>, active_sources: &[Source]) -> (r: (
    Vec<VideoSource>,
    usize,
))
    ensures
        r.0@ == kept(sources@, removal_mask(video_keys(sources@, active_sources@))),
        r.1 == count_true(removal_mask(video_keys(sources@, active_sources@))),
{
    let mut keys: Vec<DedupKey> = Vec::new();
    let mut i: usize = 0;
    while i < sources.len()
        invariant
            i <= sources.len(),
            keys@.len() == i,
            key_views(keys@) == video_keys(sources@, active_sources@).take(
                i as int,
            ),
        decreases sources.len() - i,
    {
        let s = &sources[i];
        let key = DedupKey {
            title: s.title.clone(),
            duration: s.duration_secs,
            tier: s.source_type.tier(),
            order: source_order(&s.source_type, active_sources),
        };
        assert(key@ == video_keys(sources@, active_sources@)[i as int]);
        let ghost before = keys@;
        keys.push(key);
        assert(keys@ == before.push(key));
        assert forall|k: int| 0 <= k < i implies key_views(keys@)[k] == #[trigger] key_views(before)[k] by {
            assert(keys@[k] == before[k]);
        }
        i = i + 1;
        assert(key_views(keys@) =~= video_keys(sources@, active_sources@).take(
            i as int,
        ));
    }
    assert(video_keys(sources@, active_sources@).take(sources.len() as int) =~= video_keys(
        sources@,
        active_sources@,
    ));
    let mask = find_duplicate_indices(&keys);
    proof {
        lemma_mask_len(video_keys(sources@, active_sources@));
    }
    keep_unmasked(sources, &mask)
}

/// Deduplicate series extras with the same rules as `deduplicate`.
pub fn deduplicate_series(extras: Vec<SeriesExtra>, active_sources: &[Source]) -> (r: (
    Vec<SeriesExtra>,
    usize,
))
    ensures
        r.0@ == kept(extras@, removal_mask(extra_keys(extras@, active_sources@))),
        r.1 == count_true(removal_mask(extra_keys(extras@, active_sources@))),
{
    let mut keys: Vec<DedupKey> = Vec::new();
    let mut i: usize = 0;
    while i < extras.len()
        invariant
            i <= extras.len(),
            keys@.len() == i,
            key_views(keys@) == extra_keys(extras@, active_sources@).take(
                i as int,
            ),
        decreases extras.len() - i,
    {
        let s = &extras[i];
        let key = DedupKey {
            title: s.title.clone(),
            duration: s.duration_secs,
            tier: s.source_type.tier(),
            order: source_order(&s.source_type, active_sources),
        };
        assert(key@ == extra_keys(extras@, active_sources@)[i as int]);
        let ghost before = keys@;
        keys.push(key);
        assert(keys@ == before.push(key));
        assert forall|k: int| 0 <= k < i implies key_views(keys@)[k] == #[trigger] key_views(before)[k] by {
            assert(keys@[k] == before[k]);
        }
        i = i + 1;
        assert(key_views(keys@) =~= extra_keys(extras@, active_sources@).take(
            i as int,
        ));
    }
    assert(extra_keys(extras@, active_sources@).take(extras.len() as int) =~= extra_keys(
        extras@,
        active_sources@,
    ));
    let mask = find_duplicate_indices(&keys);
    proof {
        lemma_mask_len(extra_keys(extras@, active_sources@));
    }
    keep_unmasked(extras, &mask)
}

// ---------------------------------------------------------------------------
// Laws.
// ---------------------------------------------------------------------------

pub open spec fn mask_le(m1: Seq<bool>, m2: Seq<bool>) -> bool {
    m1.len() == m2.len() && forall|k: int| 0 <= k < m1.len() && #[trigger] m1[k] ==> m2[k]
}

proof fn lemma_inner_mono(keys: Seq<DedupKeyView>, mask: Seq<bool>, i: int, j: int)
    requires
        mask.len() == keys.len(),
        0 <= i < keys.len(),
    ensures
        mask_le(mask, inner_pass(keys, mask, i, j)),
    decreases keys.len() - j,
{
    if !(j >= keys.len() || j < 0) {
        let m2 = step_pair(keys, mask, i, j);
        lemma_step_len(keys, mask, i, j);
        assert(mask_le(mask, m2));
        lemma_inner_mono(keys, m2, i, j + 1);
        lemma_mask_le_trans(mask, m2, inner_pass(keys, m2, i, j + 1));
    }
}

proof fn lemma_outer_mono(keys: Seq<DedupKeyView>, mask: Seq<bool>, i: int)
    requires
        mask.len() == keys.len(),
    ensures
        mask_le(mask, outer_pass(keys, mask, i)),
    decreases keys.len() - i,
{
    if !(i >= keys.len() || i < 0) {
        let m2 = if mask[i] {
            mask
        } else {
            inner_pass(keys, mask, i, i + 1)
        };
        if !mask[i] {
            lemma_inner_mono(keys, mask, i, i + 1);
            lemma_inner_len(keys, mask, i, i + 1);
        }
        lemma_outer_mono(keys, m2, i + 1);
    }
}

proof fn lemma_mask_len(keys: Seq<DedupKeyView>)
    ensures
        removal_mask(keys).len() == keys.len(),
{
    lemma_outer_mono(keys, Seq::new(keys.len(), |k: int| false), 0);
}

/// The mask before item `i` is examined.
pub open spec fn state_before(keys: Seq<DedupKeyView>, i: int) -> Seq<bool>
    decreases i,
{
    if i <= 0 {
        Seq::new(keys.len(), |k: int| false)
    } else {
        let m = state_before(keys, i - 1);
        if m[i - 1] {
            m
        } else {
            inner_pass(keys, m, i - 1, i)
        }
    }
}

/// The mask before pair (i, j) is examined, starting from `m` at pair
/// (i, i + 1).
pub open spec fn inner_before(keys: Seq<DedupKeyView>, m: Seq<bool>, i: int, j: int) -> Seq<bool>
    decreases j - i,
{
    if j <= i + 1 {
        m
    } else {
        step_pair(keys, inner_before(keys, m, i, j - 1), i, j - 1)
    }
}

proof fn lemma_state_before(keys: Seq<DedupKeyView>, i: int)
    requires
        0 <= i <= keys.len(),
    ensures
        state_before(keys, i).len() == keys.len(),
        outer_pass(keys, state_before(keys, i), i) == removal_mask(keys),
    decreases i,
{
    if i > 0 {
        lemma_state_before(keys, i - 1);
        let m = state_before(keys, i - 1);
        if !m[i - 1] {
            lemma_inner_len(keys, m, i - 1, i);
        }
    }
}

proof fn lemma_inner_before(keys: Seq<DedupKeyView>, m: Seq<bool>, i: int, j: int)
    requires
        m.len() == keys.len(),
        0 <= i < keys.len(),
        i + 1 <= j <= keys.len(),
    ensures
        inner_before(keys, m, i, j).len() == keys.len(),
        inner_pass(keys, inner_before(keys, m, i, j), i, j) == inner_pass(keys, m, i, i + 1),
    decreases j - i,
{
    if j > i + 1 {
        lemma_inner_before(keys, m, i, j - 1);
    }
}

proof fn lemma_mask_le_trans(a: Seq<bool>, b: Seq<bool>, c: Seq<bool>)
    requires
        mask_le(a, b),
        mask_le(b, c),
    ensures
        mask_le(a, c),
{
    assert forall|k: int| 0 <= k < a.len() && #[trigger] a[k] implies c[k] by {
        assert(b[k]);
    }
}

/// No two videos that deduplication keeps are duplicates of each other.
pub proof fn law_survivors_are_distinct(keys: Seq<DedupKeyView>, i: int, j: int)
    requires
        0 <= i < j < keys.len(),
        !removal_mask(keys)[i],
        !removal_mask(keys)[j],
    ensures
        !is_dup(keys, i, j),
{
    let f = removal_mask(keys);
    lemma_mask_len(keys);
    lemma_state_before(keys, i);
    lemma_state_before(keys, i + 1);
    let s = state_before(keys, i);
    // s is below the final mask, so item i was still present.
    lemma_outer_mono(keys, s, i);
    assert(!s[i]);
    let after_i = inner_pass(keys, s, i, i + 1);
    assert(state_before(keys, i + 1) == after_i);
    lemma_outer_mono(keys, after_i, i + 1);
    lemma_inner_before(keys, s, i, j);
    let t = inner_before(keys, s, i, j);
    let u = step_pair(keys, t, i, j);
    lemma_step_len(keys, t, i, j);
    lemma_inner_mono(keys, u, i, j + 1);
    assert(inner_pass(keys, t, i, j) == inner_pass(keys, u, i, j + 1));
    lemma_mask_le_trans(u, after_i, f);
    // t is below u, so j was still present when the pair was examined.
    assert(mask_le(t, u)) by {
        assert forall|k: int| 0 <= k < t.len() && #[trigger] t[k] implies u[k] by {
        }
    }
    lemma_mask_le_trans(t, u, f);
    assert(!t[j]);
    if is_dup(keys, i, j) {
        let l = loser(keys, i, j);
        assert(u[l]);
        assert(f[l]);
        assert(false);
    }
}

proof fn lemma_kept_count<T>(items: Seq<T>, mask: Seq<bool>)
    requires
        mask.len() == items.len(),
    ensures
        kept(items, mask).len() + count_true(mask) == items.len(),
    decreases items.len(),
{
    if items.len() > 0 {
        lemma_kept_count(items.drop_last(), mask.take(items.len() - 1));
        assert(mask.take(items.len() - 1) =~= mask.drop_last());
    }
}

/// Deduplication removes exactly as many videos as it reports: the kept list
/// and the removed count add up to the input length.
pub proof fn law_dedup_count(sources: Seq<VideoSource>, active: Seq<Source>)
    ensures
        kept(sources, removal_mask(video_keys(sources, active))).len() + count_true(
            removal_mask(video_keys(sources, active)),
        ) == sources.len(),
{
    lemma_mask_len(video_keys(sources, active));
    lemma_kept_count(sources, removal_mask(video_keys(sources, active)));
}


/// Item `w` is another item that duplicates item `k` (in the order the
/// pair is examined) and outranks it: a better tier, or the same tier and a
/// source no later in the active list, and on a full tie the earlier item.
pub open spec fn outranking_duplicate(keys: Seq<DedupKeyView>, k: int, w: int) -> bool {
    &&& 0 <= w < keys.len()
    &&& w != k
    &&& if w < k {
        is_dup(keys, w, k)
    } else {
        is_dup(keys, k, w)
    }
    &&& {
        ||| keys[w].tier < keys[k].tier
        ||| keys[w].tier == keys[k].tier && keys[w].order < keys[k].order
        ||| keys[w].tier == keys[k].tier && keys[w].order == keys[k].order && w < k
    }
}

/// Every item marked in `mask` has an outranking duplicate.
pub open spec fn removals_justified(keys: Seq<DedupKeyView>, mask: Seq<bool>) -> bool {
    forall|k: int|
        0 <= k < mask.len() && #[trigger] mask[k] ==> exists|w: int|
            outranking_duplicate(keys, k, w)
}

proof fn lemma_step_justified(keys: Seq<DedupKeyView>, mask: Seq<bool>, i: int, j: int)
    requires
        mask.len() == keys.len(),
        0 <= i < j < keys.len(),
        removals_justified(keys, mask),
    ensures
        removals_justified(keys, step_pair(keys, mask, i, j)),
        step_pair(keys, mask, i, j).len() == keys.len(),
{
    let m2 = step_pair(keys, mask, i, j);
    if !mask[j] && is_dup(keys, i, j) {
        let l = loser(keys, i, j);
        assert forall|k: int| 0 <= k < m2.len() && #[trigger] m2[k] implies exists|w: int|
            outranking_duplicate(keys, k, w) by {
            if k == l {
                if l == j {
                    assert(outranking_duplicate(keys, k, i));
                } else {
                    assert(outranking_duplicate(keys, k, j));
                }
            } else {
                assert(mask[k]);
            }
        }
    }
}

proof fn lemma_inner_justified(keys: Seq<DedupKeyView>, mask: Seq<bool>, i: int, j: int)
    requires
        mask.len() == keys.len(),
        0 <= i < j,
        i < keys.len(),
        removals_justified(keys, mask),
    ensures
        removals_justified(keys, inner_pass(keys, mask, i, j)),
        inner_pass(keys, mask, i, j).len() == keys.len(),
    decreases keys.len() - j,
{
    if j < keys.len() {
        lemma_step_justified(keys, mask, i, j);
        lemma_inner_justified(keys, step_pair(keys, mask, i, j), i, j + 1);
    }
}

proof fn lemma_outer_justified(keys: Seq<DedupKeyView>, mask: Seq<bool>, i: int)
    requires
        mask.len() == keys.len(),
        0 <= i,
        removals_justified(keys, mask),
    ensures
        removals_justified(keys, outer_pass(keys, mask, i)),
    decreases keys.len() - i,
{
    if i < keys.len() {
        if mask[i] {
            lemma_outer_justified(keys, mask, i + 1);
        } else {
            lemma_inner_justified(keys, mask, i, i + 1);
            lemma_outer_justified(keys, inner_pass(keys, mask, i, i + 1), i + 1);
        }
    }
}

/// A video is removed only as the duplicate of another video that outranks
/// it: from a better tier, or from the same tier and a source no later in
/// the active list (the earlier video on a full tie). Deduplication never
/// gives up a video for one from a less authoritative source.
pub proof fn law_removed_for_no_worse_tier(keys: Seq<DedupKeyView>, k: int)
    requires
        0 <= k < keys.len(),
        removal_mask(keys)[k],
    ensures
        exists|w: int| outranking_duplicate(keys, k, w),
{
    let init = Seq::new(keys.len(), |x: int| false);
    lemma_outer_justified(keys, init, 0);
    lemma_mask_len(keys);
}


/// Each provider's deduplication tier: TMDB, KinoCheck and TheTVDB are
/// tier 1; Dailymotion, Vimeo and Archive.org tier 2; YouTube and Bilibili
/// tier 3. A provider that is a selectable source has that source's tier.
pub proof fn law_provider_tiers(st: SourceType)
    ensures
        (source_type_tier(st) == 1) == (st == SourceType::TMDB || st == SourceType::KinoCheck || st
            == SourceType::TheTVDB),
        (source_type_tier(st) == 2) == (st == SourceType::Dailymotion || st == SourceType::Vimeo
            || st == SourceType::ArchiveOrg),
        (source_type_tier(st) == 3) == (st == SourceType::YouTube || st == SourceType::Bilibili),
        selectable_source(st) matches Some(s) ==> source_type_tier(st) == source_tier(s),
{
}

/// Of two duplicate videos, the one from the provider of the worse tier is
/// the one removed, whichever comes first; so of a Vimeo video and a YouTube
/// video that duplicate each other, the YouTube one goes.
pub proof fn law_worse_tier_loses(s: Seq<VideoSource>, active: Seq<Source>, i: int, j: int)
    requires
        0 <= i < j < s.len(),
    ensures
        source_type_tier(s[i].source_type) < source_type_tier(s[j].source_type) ==> loser(
            video_keys(s, active),
            i,
            j,
        ) == j,
        source_type_tier(s[j].source_type) < source_type_tier(s[i].source_type) ==> loser(
            video_keys(s, active),
            i,
            j,
        ) == i,
        s[i].source_type == SourceType::Vimeo && s[j].source_type == SourceType::YouTube ==> loser(
            video_keys(s, active),
            i,
            j,
        ) == j,
        s[i].source_type == SourceType::YouTube && s[j].source_type == SourceType::Vimeo ==> loser(
            video_keys(s, active),
            i,
            j,
        ) == i,
{
    law_provider_tiers(s[i].source_type);
    law_provider_tiers(s[j].source_type);
}


/// Each selectable source's tier: TMDB is tier 1; Archive.org, Dailymotion
/// and Vimeo tier 2; YouTube and Bilibili tier 3.
pub proof fn law_source_tiers(src: Source)
    ensures
        (source_tier(src) == 1) == (src == Source::Tmdb),
        (source_tier(src) == 2) == (src == Source::Archive || src == Source::Dailymotion || src
            == Source::Vimeo),
        (source_tier(src) == 3) == (src == Source::Youtube || src == Source::Bilibili),
{
}

} // verus!
