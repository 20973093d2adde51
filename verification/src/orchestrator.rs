//! The decisions of movie discovery: which sources are asked and in which
//! order, when KinoCheck stands in for TMDB, and how the collected videos are
//! narrowed down (title/duration deduplication, one video per URL, and a
//! cap on each category favouring the more authoritative sources).
use vstd::prelude::*;
use crate::deduplication::{count_true, deduplicate, kept, removal_mask, video_keys};
use crate::models::{
    copy_source,
    ContentCategory, Source, SourceType, VideoSource, VideoSourceView, video_views,
};
use crate::url_order::{sort_unique_by_url, url_sorted_unique};

verus! {

/// Result of querying a single discovery source.
#[derive(Debug, Clone)]
pub struct SourceResult {
    /// Which source was queried
    pub source: Source,
    /// Number of videos the source returned, before deduplication and limits
    pub videos_found: usize,
    /// Error message if the source failed, None on success
    pub error: Option<String>,
}

/// `seq![s]` when `s` is active, else nothing.
pub open spec fn if_active(active: Seq<Source>, s: Source) -> Seq<Source> {
    if active.contains(s) {
        seq![s]
    } else {
        seq![]
    }
}

/// The active sources in the order they are asked: TMDB, Archive.org,
/// YouTube, Dailymotion, Vimeo, Bilibili.
pub open spec fn query_plan(active: Seq<Source>) -> Seq<Source> {
    if_active(active, Source::Tmdb) + if_active(active, Source::Archive) + if_active(
        active,
        Source::Youtube,
    ) + if_active(active, Source::Dailymotion) + if_active(active, Source::Vimeo) + if_active(
        active,
        Source::Bilibili,
    )
}

/// TMDB answered without error but had no video.
pub open spec fn tmdb_found_nothing(results: Seq<SourceResult>) -> bool {
    exists|k: int|
        0 <= k < results.len() && (#[trigger] results[k]).source == Source::Tmdb
            && results[k].videos_found == 0 && results[k].error is None
}

/// The TMDB movie id to ask KinoCheck about: only when TMDB is active,
/// found the movie, and had no video for it.
pub open spec fn kinocheck_target(
    active: Seq<Source>,
    results: Seq<SourceResult>,
    tmdb_movie_id: Option<u64>,
) -> Option<u64> {
    if active.contains(Source::Tmdb) && tmdb_found_nothing(results) {
        tmdb_movie_id
    } else {
        None
    }
}

/// How authoritative a source type is when a category is over its cap
/// (lower first): TMDB, then Archive.org and KinoCheck, then Dailymotion
/// and Vimeo, then YouTube and Bilibili, then TheTVDB.
pub open spec fn source_priority(st: SourceType) -> u8 {
    match st {
        SourceType::TMDB => 0,
        SourceType::ArchiveOrg => 1,
        SourceType::KinoCheck => 1,
        SourceType::Dailymotion => 2,
        SourceType::Vimeo => 2,
        SourceType::YouTube => 3,
        SourceType::Bilibili => 3,
        SourceType::TheTVDB => 4,
    }
}

/// The most videos kept of a category: 4 trailers, 8 deleted scenes, 8
/// interviews, 10 featurettes, 10 behind-the-scenes; no cap on the others.
pub open spec fn category_limit(c: ContentCategory) -> Option<nat> {
    match c {
        ContentCategory::Trailer => Some(4),
        ContentCategory::DeletedScene => Some(8),
        ContentCategory::Interview => Some(8),
        ContentCategory::Featurette => Some(10),
        ContentCategory::BehindTheScenes => Some(10),
        _ => None,
    }
}

/// The order in which categories are emitted.
pub open spec fn category_order() -> Seq<ContentCategory> {
    seq![
        ContentCategory::Trailer,
        ContentCategory::Featurette,
        ContentCategory::BehindTheScenes,
        ContentCategory::DeletedScene,
        ContentCategory::Interview,
        ContentCategory::Short,
        ContentCategory::Clip,
        ContentCategory::Scene,
        ContentCategory::Extras,
    ]
}

/// The videos of category `c` from sources of priority `p`, in order.
pub open spec fn bucket(s: Seq<VideoSourceView>, c: ContentCategory, p: u8) -> Seq<VideoSourceView>
    decreases s.len(),
{
    if s.len() == 0 {
        seq![]
    } else {
        let prev = bucket(s.drop_last(), c, p);
        if s.last().category == c && source_priority(s.last().source_type) == p {
            prev.push(s.last())
        } else {
            prev
        }
    }
}

/// The videos of category `c` ordered by source priority, stably.
pub open spec fn by_priority(s: Seq<VideoSourceView>, c: ContentCategory) -> Seq<VideoSourceView> {
    bucket(s, c, 0) + bucket(s, c, 1) + bucket(s, c, 2) + bucket(s, c, 3) + bucket(s, c, 4)
}

/// The videos kept of category `c`: by priority, cut at the category's cap.
pub open spec fn limited(s: Seq<VideoSourceView>, c: ContentCategory) -> Seq<VideoSourceView> {
    let g = by_priority(s, c);
    match category_limit(c) {
        Some(l) => if g.len() > l {
            g.take(l as int)
        } else {
            g
        },
        None => g,
    }
}

/// The kept videos of the first `n` categories of the emission order.
pub open spec fn limited_upto(s: Seq<VideoSourceView>, n: nat) -> Seq<VideoSourceView>
    decreases n,
{
    if n == 0 {
        seq![]
    } else {
        limited_upto(s, (n - 1) as nat) + limited(s, category_order()[n - 1])
    }
}

/// All kept videos, category after category in the emission order.
pub open spec fn content_limited(s: Seq<VideoSourceView>) -> Seq<VideoSourceView> {
    limited_upto(s, 9)
}

fn priority_of(st: SourceType) -> (r: u8)
    ensures
        r == source_priority(st),
{
    match st {
        SourceType::TMDB => 0,
        SourceType::ArchiveOrg => 1,
        SourceType::KinoCheck => 1,
        SourceType::Dailymotion => 2,
        SourceType::Vimeo => 2,
        SourceType::YouTube => 3,
        SourceType::Bilibili => 3,
        SourceType::TheTVDB => 4,
    }
}

fn limit_of(c: ContentCategory) -> (r: Option<usize>)
    ensures
        match r {
            Some(l) => category_limit(c) == Some(l as nat),
            None => category_limit(c) is None,
        },
{
    match c {
        ContentCategory::Trailer => Some(4),
        ContentCategory::DeletedScene => Some(8),
        ContentCategory::Interview => Some(8),
        ContentCategory::Featurette => Some(10),
        ContentCategory::BehindTheScenes => Some(10),
        _ => None,
    }
}

fn category_at(i: usize) -> (r: ContentCategory)
    requires
        i < 9,
    ensures
        r == category_order()[i as int],
{
    if i == 0 {
        ContentCategory::Trailer
    } else if i == 1 {
        ContentCategory::Featurette
    } else if i == 2 {
        ContentCategory::BehindTheScenes
    } else if i == 3 {
        ContentCategory::DeletedScene
    } else if i == 4 {
        ContentCategory::Interview
    } else if i == 5 {
        ContentCategory::Short
    } else if i == 6 {
        ContentCategory::Clip
    } else if i == 7 {
        ContentCategory::Scene
    } else {
        ContentCategory::Extras
    }
}

/// Appends copies of the videos of category `c` whose sources have
/// priority `p`, in order.
fn collect_bucket(s: &Vec<VideoSource>, c: ContentCategory, p: u8, out: &mut Vec<VideoSource>)
    ensures
        video_views(final(out)@) == video_views(old(out)@) + bucket(video_views(s@), c, p),
{
    let ghost start = video_views(out@);
    let ghost sv = video_views(s@);
    let mut i: usize = 0;
    assert(sv.take(0) =~= Seq::<VideoSourceView>::empty());
    assert(start + bucket(sv.take(0), c, p) =~= start);
    while i < s.len()
        invariant
            i <= s.len(),
            sv == video_views(s@),
            video_views(out@) == start + bucket(sv.take(i as int), c, p),
        decreases s.len() - i,
    {
        let ghost before = video_views(out@);
        assert(sv.take(i + 1).drop_last() =~= sv.take(i as int));
        assert(sv.take(i + 1).last() == s@[i as int]@);
        if s[i].category == c && priority_of(s[i].source_type) == p {
            let v = copy_source(&s[i]);
            out.push(v);
            assert(video_views(out@) =~= before.push(v@));
        } else {
            assert(video_views(out@) =~= before);
        }
        i = i + 1;
    }
    assert(sv.take(s.len() as int) =~= sv);
}

/// Appends the kept videos of category `c`: by source priority, cut at the
/// category's cap.
fn collect_limited(s: &Vec<VideoSource>, c: ContentCategory, out: &mut Vec<VideoSource>)
    ensures
        video_views(final(out)@) == video_views(old(out)@) + limited(video_views(s@), c),
{
    let ghost sv = video_views(s@);
    let mut g: Vec<VideoSource> = Vec::new();
    assert(video_views(g@) =~= Seq::<VideoSourceView>::empty());
    collect_bucket(s, c, 0, &mut g);
    collect_bucket(s, c, 1, &mut g);
    collect_bucket(s, c, 2, &mut g);
    collect_bucket(s, c, 3, &mut g);
    collect_bucket(s, c, 4, &mut g);
    assert(video_views(g@) =~= by_priority(sv, c));
    match limit_of(c) {
        Some(l) => {
            if g.len() > l {
                g.truncate(l);
                assert(video_views(g@) =~= by_priority(sv, c).take(l as int));
            }
        },
        None => {},
    }
    assert(video_views(g@) == limited(sv, c));
    let ghost before = video_views(out@);
    let mut k: usize = 0;
    let ghost gv = video_views(g@);
    while k < g.len()
        invariant
            k <= g.len(),
            gv == video_views(g@),
            video_views(out@) == before + gv.take(k as int),
        decreases g.len() - k,
    {
        let ghost prev = video_views(out@);
        let v = copy_source(&g[k]);
        assert(v@ == gv[k as int]);
        out.push(v);
        assert(video_views(out@) =~= prev.push(v@));
        assert(gv.take(k + 1) =~= gv.take(k as int).push(gv[k as int]));
        k = k + 1;
    }
    assert(gv.take(g.len() as int) =~= gv);
}

/// Keeps at most 4 trailers, 8 deleted scenes, 8 interviews, 10
/// featurettes and 10 behind-the-scenes videos, preferring TMDB, then
/// Archive.org and KinoCheck, then Dailymotion and Vimeo, then YouTube and
/// Bilibili (the order among equals is kept); other categories are not
/// capped. Categories come out in the order trailer, featurette,
/// behind the scenes, deleted scene, interview, short, clip, scene, extras.
pub fn apply_content_limits(sources: &Vec<VideoSource>) -> (r: Vec<VideoSource>)
    ensures
        video_views(r@) == content_limited(video_views(sources@)),
{
    let ghost sv = video_views(sources@);
    let mut out: Vec<VideoSource> = Vec::new();
    let mut i: usize = 0;
    assert(video_views(out@) =~= limited_upto(sv, 0));
    while i < 9
        invariant
            i <= 9,
            sv == video_views(sources@),
            video_views(out@) == limited_upto(sv, i as nat),
        decreases 9 - i,
    {
        let c = category_at(i);
        collect_limited(sources, c, &mut out);
        i = i + 1;
    }
    out
}

/// The sources of `active`, as a slice, contain `s`.
fn is_active(active: &[Source], s: Source) -> (r: bool)
    ensures
        r == active@.contains(s),
{
    let mut i: usize = 0;
    while i < active.len()
        invariant
            i <= active.len(),
            forall|k: int| 0 <= k < i ==> active@[k] != s,
        decreases active.len() - i,
    {
        if active[i] == s {
            assert(active@[i as int] == s);
            return true;
        }
        i = i + 1;
    }
    false
}

/// The active sources in the order they are asked: TMDB, Archive.org,
/// YouTube, Dailymotion, Vimeo, Bilibili.
pub fn query_order(active: &[Source]) -> (r: Vec<Source>)
    ensures
        r@ == query_plan(active@),
{
    let mut r: Vec<Source> = Vec::new();
    if is_active(active, Source::Tmdb) {
        r.push(Source::Tmdb);
    }
    if is_active(active, Source::Archive) {
        r.push(Source::Archive);
    }
    if is_active(active, Source::Youtube) {
        r.push(Source::Youtube);
    }
    if is_active(active, Source::Dailymotion) {
        r.push(Source::Dailymotion);
    }
    if is_active(active, Source::Vimeo) {
        r.push(Source::Vimeo);
    }
    if is_active(active, Source::Bilibili) {
        r.push(Source::Bilibili);
    }
    assert(r@ =~= query_plan(active@));
    r
}

/// The TMDB movie id to ask KinoCheck about, when TMDB is active and
/// answered without error but with no video; otherwise none.
pub fn kinocheck_fallback(
    active: &[Source],
    results: &Vec<SourceResult>,
    tmdb_movie_id: Option<u64>,
) -> (r: Option<u64>)
    ensures
        r == kinocheck_target(active@, results@, tmdb_movie_id),
{
    if !is_active(active, Source::Tmdb) {
        return None;
    }
    let mut i: usize = 0;
    while i < results.len()
        invariant
            i <= results.len(),
            active@.contains(Source::Tmdb),
            forall|k: int|
                0 <= k < i ==> !((#[trigger] results@[k]).source == Source::Tmdb
                    && results@[k].videos_found == 0 && results@[k].error is None),
        decreases results.len() - i,
    {
        let r = &results[i];
        if r.source == Source::Tmdb && r.videos_found == 0 && r.error.is_none() {
            assert(results@[i as int].source == Source::Tmdb && results@[i as int].videos_found
                == 0 && results@[i as int].error is None);
            assert(tmdb_found_nothing(results@));
            return tmdb_movie_id;
        }
        i = i + 1;
    }
    None
}

/// What is left of the collected videos: duplicates by title and duration
/// removed (the more authoritative source kept), then one video per URL
/// ordered by URL, then the category caps; with the number of title and
/// duration duplicates removed.
pub fn finalize_sources(all_sources: Vec<VideoSource>, active: &[Source]) -> (r: (
    Vec<VideoSource>,
    usize,
))
    ensures
        r.1 == count_true(removal_mask(video_keys(all_sources@, active@))),
        exists|u: Seq<VideoSourceView>|
            url_sorted_unique(
                video_views(kept(all_sources@, removal_mask(video_keys(all_sources@, active@)))),
                u,
            ) && video_views(r.0@) == content_limited(u),
{
    let (deduped, removed) = deduplicate(all_sources, active);
    let unique = sort_unique_by_url(deduped);
    let limited = apply_content_limits(&unique);
    (limited, removed)
}

/// What discovery has gathered for one movie so far: the videos, one
/// result per source asked, and the TMDB id of the movie once TMDB found it.
pub struct MovieDiscovery {
    pub videos: Vec<VideoSource>,
    pub results: Vec<SourceResult>,
    pub tmdb_movie_id: Option<u64>,
}

impl MovieDiscovery {
    /// Nothing gathered yet.
    pub fn new() -> (r: Self)
        ensures
            r.videos@ == Seq::<VideoSource>::empty(),
            r.results@ == Seq::<SourceResult>::empty(),
            r.tmdb_movie_id is None,
    {
        MovieDiscovery { videos: Vec::new(), results: Vec::new(), tmdb_movie_id: None }
    }

    /// Records the answer of `source`: on success its videos are added and
    /// its result counts them; on failure nothing is added and its result
    /// holds the message and no video.
    pub fn record(&mut self, source: Source, outcome: Result<Vec<VideoSource>, String>)
        ensures
            final(self).tmdb_movie_id == old(self).tmdb_movie_id,
            final(self).results@.len() == old(self).results@.len() + 1,
            final(self).results@.drop_last() == old(self).results@,
            final(self).results@.last().source == source,
            match outcome {
                Ok(v) => {
                    &&& final(self).videos@ == old(self).videos@ + v@
                    &&& final(self).results@.last().videos_found == v@.len()
                    &&& final(self).results@.last().error is None
                },
                Err(m) => {
                    &&& final(self).videos@ == old(self).videos@
                    &&& final(self).results@.last().videos_found == 0
                    &&& final(self).results@.last().error == Some(m)
                },
            },
    {
        match outcome {
            Ok(v) => {
                let mut v = v;
                self.results.push(SourceResult { source, videos_found: v.len(), error: None });
                self.videos.append(&mut v);
            },
            Err(m) => {
                self.results.push(SourceResult { source, videos_found: 0, error: Some(m) });
            },
        }
    }

    /// Records the answer of TMDB, which on success also tells whether the
    /// movie was found, by its TMDB id.
    pub fn record_tmdb(&mut self, outcome: Result<(Vec<VideoSource>, Option<u64>), String>)
        ensures
            final(self).tmdb_movie_id == (match outcome {
                Ok(p) => p.1,
                Err(_) => old(self).tmdb_movie_id,
            }),
            final(self).results@.len() == old(self).results@.len() + 1,
            final(self).results@.drop_last() == old(self).results@,
            final(self).results@.last().source == Source::Tmdb,
            match outcome {
                Ok(p) => {
                    &&& final(self).videos@ == old(self).videos@ + p.0@
                    &&& final(self).results@.last().videos_found == p.0@.len()
                    &&& final(self).results@.last().error is None
                },
                Err(m) => {
                    &&& final(self).videos@ == old(self).videos@
                    &&& final(self).results@.last().videos_found == 0
                    &&& final(self).results@.last().error == Some(m)
                },
            },
    {
        match outcome {
            Ok((v, id)) => {
                self.tmdb_movie_id = id;
                self.record(Source::Tmdb, Ok(v));
            },
            Err(m) => {
                self.record(Source::Tmdb, Err(m));
            },
        }
    }

    /// The TMDB movie id to ask KinoCheck about now.
    pub fn fallback_target(&self, active: &[Source]) -> (r: Option<u64>)
        ensures
            r == kinocheck_target(active@, self.results@, self.tmdb_movie_id),
    {
        kinocheck_fallback(active, &self.results, self.tmdb_movie_id)
    }

    /// Adds what KinoCheck found; it has no result of its own.
    pub fn add_fallback(&mut self, found: Vec<VideoSource>)
        ensures
            final(self).videos@ == old(self).videos@ + found@,
            final(self).results@ == old(self).results@,
            final(self).tmdb_movie_id == old(self).tmdb_movie_id,
    {
        let mut found = found;
        self.videos.append(&mut found);
    }

    /// The videos that are left once everything is gathered (see
    /// `finalize_sources`), the per-source results, and the number of
    /// title and duration duplicates removed.
    pub fn finish(self, active: &[Source]) -> (r: (Vec<VideoSource>, Vec<SourceResult>, usize))
        ensures
            r.1@ == self.results@,
            r.2 == count_true(removal_mask(video_keys(self.videos@, active@))),
            exists|u: Seq<VideoSourceView>|
                url_sorted_unique(
                    video_views(kept(self.videos@, removal_mask(video_keys(self.videos@, active@)))),
                    u,
                ) && video_views(r.0@) == content_limited(u),
    {
        let MovieDiscovery { videos, results, tmdb_movie_id: _ } = self;
        let (kept_videos, removed) = finalize_sources(videos, active);
        (kept_videos, results, removed)
    }
}

/// KinoCheck is asked right after TMDB exactly when TMDB is active and
/// answered without error but with no video, and then about the movie TMDB
/// found (if it found none, KinoCheck is not asked).
pub proof fn law_kinocheck_only_for_empty_tmdb(
    active: Seq<Source>,
    tmdb: SourceResult,
    tmdb_movie_id: Option<u64>,
)
    requires
        tmdb.source == Source::Tmdb,
    ensures
        kinocheck_target(active, seq![tmdb], tmdb_movie_id) == (if active.contains(Source::Tmdb)
            && tmdb.videos_found == 0 && tmdb.error is None {
            tmdb_movie_id
        } else {
            None
        }),
{
    let r = seq![tmdb];
    if active.contains(Source::Tmdb) && tmdb.videos_found == 0 && tmdb.error is None {
        assert(r[0] == tmdb);
        assert(tmdb_found_nothing(r));
    }
}

// ---------------------------------------------------------------------------
// Laws of the category caps.
// ---------------------------------------------------------------------------

/// Number of videos of category `c`.
pub open spec fn category_count(s: Seq<VideoSourceView>, c: ContentCategory) -> nat
    decreases s.len(),
{
    if s.len() == 0 {
        0
    } else {
        category_count(s.drop_last(), c) + if s.last().category == c {
            1nat
        } else {
            0nat
        }
    }
}

proof fn lemma_buckets_cover(s: Seq<VideoSourceView>, c: ContentCategory)
    ensures
        bucket(s, c, 0).len() + bucket(s, c, 1).len() + bucket(s, c, 2).len() + bucket(
            s,
            c,
            3,
        ).len() + bucket(s, c, 4).len() == category_count(s, c),
    decreases s.len(),
{
    if s.len() > 0 {
        lemma_buckets_cover(s.drop_last(), c);
        let p = source_priority(s.last().source_type);
        assert(p <= 4);
    }
}

proof fn lemma_bucket_members(s: Seq<VideoSourceView>, c: ContentCategory, p: u8)
    ensures
        forall|k: int|
            0 <= k < bucket(s, c, p).len() ==> (#[trigger] bucket(s, c, p)[k]).category == c
                && source_priority(bucket(s, c, p)[k].source_type) == p,
    decreases s.len(),
{
    if s.len() > 0 {
        lemma_bucket_members(s.drop_last(), c, p);
    }
}

/// All videos of a category are kept when there are no more than its cap;
/// otherwise exactly as many as the cap.
pub proof fn law_category_cap(s: Seq<VideoSourceView>, c: ContentCategory)
    ensures
        limited(s, c).len() == (match category_limit(c) {
            Some(l) => if category_count(s, c) > l {
                l
            } else {
                category_count(s, c)
            },
            None => category_count(s, c),
        }),
        forall|k: int| 0 <= k < limited(s, c).len() ==> (#[trigger] limited(s, c)[k]).category == c,
{
    lemma_buckets_cover(s, c);
    lemma_bucket_members(s, c, 0);
    lemma_bucket_members(s, c, 1);
    lemma_bucket_members(s, c, 2);
    lemma_bucket_members(s, c, 3);
    lemma_bucket_members(s, c, 4);
    let g = by_priority(s, c);
    assert forall|k: int| 0 <= k < g.len() implies (#[trigger] g[k]).category == c by {
        let b0 = bucket(s, c, 0);
        let b1 = bucket(s, c, 1);
        let b2 = bucket(s, c, 2);
        let b3 = bucket(s, c, 3);
        let b4 = bucket(s, c, 4);
        if k < b0.len() {
            assert(g[k] == b0[k]);
        } else if k < b0.len() + b1.len() {
            assert(g[k] == b1[k - b0.len()]);
        } else if k < b0.len() + b1.len() + b2.len() {
            assert(g[k] == b2[k - b0.len() - b1.len()]);
        } else if k < b0.len() + b1.len() + b2.len() + b3.len() {
            assert(g[k] == b3[k - b0.len() - b1.len() - b2.len()]);
        } else {
            assert(g[k] == b4[k - b0.len() - b1.len() - b2.len() - b3.len()]);
        }
    }
}

/// Within a category the kept videos come in order of source priority, and
/// a video is left out only after every video of a more authoritative
/// source: what the cap drops never outranks what it keeps.
pub proof fn law_priority_order(s: Seq<VideoSourceView>, c: ContentCategory)
    ensures
        forall|i: int, j: int|
            0 <= i < j < by_priority(s, c).len() ==> source_priority(
                (#[trigger] by_priority(s, c)[i]).source_type,
            ) <= source_priority((#[trigger] by_priority(s, c)[j]).source_type),
        limited(s, c) == by_priority(s, c).take(limited(s, c).len() as int),
{
    lemma_bucket_members(s, c, 0);
    lemma_bucket_members(s, c, 1);
    lemma_bucket_members(s, c, 2);
    lemma_bucket_members(s, c, 3);
    lemma_bucket_members(s, c, 4);
    let g = by_priority(s, c);
    let b0 = bucket(s, c, 0);
    let b1 = bucket(s, c, 1);
    let b2 = bucket(s, c, 2);
    let b3 = bucket(s, c, 3);
    let b4 = bucket(s, c, 4);
    let e1 = b0.len() as int;
    let e2 = e1 + b1.len();
    let e3 = e2 + b2.len();
    let e4 = e3 + b3.len();
    assert forall|k: int| 0 <= k < g.len() implies source_priority((#[trigger] g[k]).source_type) == (
    if k < e1 {
        0int
    } else if k < e2 {
        1int
    } else if k < e3 {
        2int
    } else if k < e4 {
        3int
    } else {
        4int
    }) by {
        if k < e1 {
            assert(g[k] == b0[k]);
        } else if k < e2 {
            assert(g[k] == b1[k - e1]);
        } else if k < e3 {
            assert(g[k] == b2[k - e2]);
        } else if k < e4 {
            assert(g[k] == b3[k - e3]);
        } else {
            assert(g[k] == b4[k - e4]);
        }
    }
    assert(limited(s, c) =~= g.take(limited(s, c).len() as int));
}

/// Position of a category in the emission order.
pub open spec fn category_index(c: ContentCategory) -> nat {
    match c {
        ContentCategory::Trailer => 0,
        ContentCategory::Featurette => 1,
        ContentCategory::BehindTheScenes => 2,
        ContentCategory::DeletedScene => 3,
        ContentCategory::Interview => 4,
        ContentCategory::Short => 5,
        ContentCategory::Clip => 6,
        ContentCategory::Scene => 7,
        ContentCategory::Extras => 8,
    }
}

proof fn lemma_count_concat(a: Seq<VideoSourceView>, b: Seq<VideoSourceView>, c: ContentCategory)
    ensures
        category_count(a + b, c) == category_count(a, c) + category_count(b, c),
    decreases b.len(),
{
    if b.len() == 0 {
        assert(a + b =~= a);
    } else {
        lemma_count_concat(a, b.drop_last(), c);
        assert((a + b).drop_last() =~= a + b.drop_last());
    }
}

proof fn lemma_count_uniform(t: Seq<VideoSourceView>, d: ContentCategory, c: ContentCategory)
    requires
        forall|k: int| 0 <= k < t.len() ==> (#[trigger] t[k]).category == d,
    ensures
        category_count(t, c) == if c == d {
            t.len()
        } else {
            0
        },
    decreases t.len(),
{
    if t.len() > 0 {
        lemma_count_uniform(t.drop_last(), d, c);
    }
}

proof fn lemma_count_upto(s: Seq<VideoSourceView>, n: nat, c: ContentCategory)
    requires
        n <= 9,
    ensures
        category_count(limited_upto(s, n), c) == if category_index(c) < n {
            limited(s, c).len()
        } else {
            0
        },
    decreases n,
{
    if n > 0 {
        lemma_count_upto(s, (n - 1) as nat, c);
        let d = category_order()[n - 1];
        law_category_cap(s, d);
        lemma_count_concat(limited_upto(s, (n - 1) as nat), limited(s, d), c);
        lemma_count_uniform(limited(s, d), d, c);
        assert(category_index(d) == n - 1);
        assert(c == d <==> category_index(c) == n - 1);
    }
}

/// The videos of each category in the narrowed list are exactly those that
/// the category's cap keeps: all of them when there are no more than the
/// cap, otherwise as many as the cap.
pub proof fn law_content_limits(s: Seq<VideoSourceView>, c: ContentCategory)
    ensures
        category_count(content_limited(s), c) == (match category_limit(c) {
            Some(l) => if category_count(s, c) > l {
                l
            } else {
                category_count(s, c)
            },
            None => category_count(s, c),
        }),
{
    lemma_count_upto(s, 9, c);
    law_category_cap(s, c);
}


/// The caps of the categories: 4 trailers, 10 featurettes, 10 behind the
/// scenes, 8 deleted scenes, 8 interviews; shorts, clips, scenes and extras
/// are not capped. Over a cap, TMDB comes first, then Archive.org and
/// KinoCheck, then Dailymotion and Vimeo, then YouTube and Bilibili, then
/// TheTVDB.
pub proof fn law_caps_and_priorities(c: ContentCategory, a: SourceType, b: SourceType)
    ensures
        c == ContentCategory::Trailer ==> category_limit(c) == Some(4nat),
        c == ContentCategory::Featurette ==> category_limit(c) == Some(10nat),
        c == ContentCategory::BehindTheScenes ==> category_limit(c) == Some(10nat),
        c == ContentCategory::DeletedScene ==> category_limit(c) == Some(8nat),
        c == ContentCategory::Interview ==> category_limit(c) == Some(8nat),
        (c == ContentCategory::Short || c == ContentCategory::Clip || c == ContentCategory::Scene
            || c == ContentCategory::Extras) ==> category_limit(c) is None,
        a == SourceType::TMDB && b != SourceType::TMDB ==> source_priority(a) < source_priority(b),
        (a == SourceType::ArchiveOrg || a == SourceType::KinoCheck) && (b == SourceType::Dailymotion
            || b == SourceType::Vimeo) ==> source_priority(a) < source_priority(b),
        (a == SourceType::Dailymotion || a == SourceType::Vimeo) && (b == SourceType::YouTube || b
            == SourceType::Bilibili) ==> source_priority(a) < source_priority(b),
        (a == SourceType::YouTube || a == SourceType::Bilibili) && b == SourceType::TheTVDB
            ==> source_priority(a) < source_priority(b),
        source_priority(SourceType::ArchiveOrg) == source_priority(SourceType::KinoCheck),
        source_priority(SourceType::Dailymotion) == source_priority(SourceType::Vimeo),
        source_priority(SourceType::YouTube) == source_priority(SourceType::Bilibili),
{
}

} // verus!
