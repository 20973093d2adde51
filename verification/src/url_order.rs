//! Ordering and de-duplicating video sources by URL.
//!
//! URLs are ordered as `String` orders them: lexicographically by bytes,
//! which for UTF-8 text is lexicographic order of the characters' code
//! points.
use vstd::prelude::*;
use crate::models::{VideoSource, VideoSourceView, video_views};
use crate::text::{chars_of, equals_str};

verus! {

/// Lexicographic order of texts by code point: a proper prefix comes first.
pub open spec fn text_lt(a: Seq<char>, b: Seq<char>) -> bool
    decreases a.len(),
{
    if a.len() == 0 {
        b.len() > 0
    } else if b.len() == 0 {
        false
    } else if (a[0] as int) < (b[0] as int) {
        true
    } else if (a[0] as int) > (b[0] as int) {
        false
    } else {
        text_lt(a.drop_first(), b.drop_first())
    }
}

/// No text comes before itself.
pub proof fn lemma_text_lt_irreflexive(a: Seq<char>)
    ensures
        !text_lt(a, a),
    decreases a.len(),
{
    if a.len() > 0 {
        lemma_text_lt_irreflexive(a.drop_first());
    }
}

/// The order is transitive.
pub proof fn lemma_text_lt_transitive(a: Seq<char>, b: Seq<char>, c: Seq<char>)
    requires
        text_lt(a, b),
        text_lt(b, c),
    ensures
        text_lt(a, c),
    decreases a.len(),
{
    if a.len() > 0 && b.len() > 0 && c.len() > 0 {
        if (a[0] as int) == (b[0] as int) && (b[0] as int) == (c[0] as int) {
            lemma_text_lt_transitive(a.drop_first(), b.drop_first(), c.drop_first());
        }
    }
}

/// Of two different texts one comes before the other.
pub proof fn lemma_text_lt_total(a: Seq<char>, b: Seq<char>)
    requires
        a != b,
    ensures
        text_lt(a, b) || text_lt(b, a),
    decreases a.len(),
{
    if a.len() > 0 && b.len() > 0 {
        if (a[0] as int) == (b[0] as int) {
            assert(a[0] == b[0]);
            if a.drop_first() == b.drop_first() {
                assert(a =~= seq![a[0]] + a.drop_first());
                assert(b =~= seq![b[0]] + b.drop_first());
            }
            lemma_text_lt_total(a.drop_first(), b.drop_first());
        }
    } else if a.len() == 0 && b.len() == 0 {
        assert(a =~= b);
    }
}

/// Whether `a` comes before `b`.
pub fn text_less(a: &Vec<char>, b: &Vec<char>) -> (r: bool)
    ensures
        r == text_lt(a@, b@),
{
    let mut i: usize = 0;
    assert(a@.skip(0) =~= a@);
    assert(b@.skip(0) =~= b@);
    while i < a.len() && i < b.len()
        invariant
            i <= a.len(),
            i <= b.len(),
            text_lt(a@, b@) == text_lt(a@.skip(i as int), b@.skip(i as int)),
        decreases a.len() - i,
    {
        let x = a[i];
        let y = b[i];
        assert(a@.skip(i as int)[0] == a@[i as int]);
        assert(b@.skip(i as int)[0] == b@[i as int]);
        if x < y {
            return true;
        }
        if x > y {
            return false;
        }
        assert(a@.skip(i as int).drop_first() =~= a@.skip(i + 1));
        assert(b@.skip(i as int).drop_first() =~= b@.skip(i + 1));
        i = i + 1;
    }
    i == a.len() && i < b.len()
}

/// Whether some source of the list has the given URL.
pub open spec fn has_url(s: Seq<VideoSourceView>, url: Seq<char>) -> bool {
    exists|k: int| 0 <= k < s.len() && #[trigger] s[k].url == url
}

/// The sources with the first of each URL kept, in order.
pub open spec fn first_of_each_url(s: Seq<VideoSourceView>) -> Seq<VideoSourceView>
    decreases s.len(),
{
    if s.len() == 0 {
        seq![]
    } else {
        let prev = first_of_each_url(s.drop_last());
        if has_url(prev, s.last().url) {
            prev
        } else {
            prev.push(s.last())
        }
    }
}

/// `s[i]` is the first source of the list with its URL.
pub open spec fn first_with_url(s: Seq<VideoSourceView>, i: int) -> bool {
    0 <= i < s.len() && forall|m: int| 0 <= m < i ==> #[trigger] s[m].url != s[i].url
}

/// After keeping the first source of each URL no URL occurs twice.
pub proof fn law_first_of_each_url_distinct(s: Seq<VideoSourceView>)
    ensures
        distinct_urls(first_of_each_url(s)),
    decreases s.len(),
{
    if s.len() > 0 {
        let sp = s.drop_last();
        let prev = first_of_each_url(sp);
        law_first_of_each_url_distinct(sp);
        if !has_url(prev, s.last().url) {
            let r = prev.push(s.last());
            assert forall|i: int, j: int| 0 <= i < j < r.len() implies #[trigger] r[i].url
                != #[trigger] r[j].url by {
                if j == r.len() - 1 {
                    if r[i].url == r[j].url {
                        assert(prev[i].url == s.last().url);
                    }
                } else {
                    assert(r[i] == prev[i] && r[j] == prev[j]);
                }
            }
        }
    }
}

/// After keeping the first source of each URL every URL of the input is
/// still there.
pub proof fn law_first_of_each_url_covers(s: Seq<VideoSourceView>)
    ensures
        forall|k: int| 0 <= k < s.len() ==> has_url(first_of_each_url(s), #[trigger] s[k].url),
    decreases s.len(),
{
    if s.len() > 0 {
        let sp = s.drop_last();
        let prev = first_of_each_url(sp);
        law_first_of_each_url_covers(sp);
        if has_url(prev, s.last().url) {
            assert forall|k: int| 0 <= k < s.len() implies has_url(prev, #[trigger] s[k].url) by {
                if k < s.len() - 1 {
                    assert(sp[k] == s[k]);
                }
            }
        } else {
            let r = prev.push(s.last());
            assert forall|k: int| 0 <= k < s.len() implies has_url(r, #[trigger] s[k].url) by {
                if k < s.len() - 1 {
                    assert(sp[k] == s[k]);
                    assert(has_url(prev, sp[k].url));
                    let w = choose|w: int| 0 <= w < prev.len() && #[trigger] prev[w].url == sp[k].url;
                    assert(r[w].url == s[k].url);
                } else {
                    assert(r[r.len() - 1].url == s[k].url);
                }
            }
        }
    }
}

/// Each source kept is the first of its URL in the input.
pub proof fn law_first_of_each_url_firsts(s: Seq<VideoSourceView>)
    ensures
        forall|j: int|
            #![trigger first_of_each_url(s)[j]] 0 <= j < first_of_each_url(s).len() ==> exists|i: int|
                #![trigger s[i]] first_with_url(s, i) && first_of_each_url(s)[j] == s[i],
    decreases s.len(),
{
    if s.len() > 0 {
        let sp = s.drop_last();
        let prev = first_of_each_url(sp);
        law_first_of_each_url_firsts(sp);
        assert forall|j: int| #![trigger prev[j]] 0 <= j < prev.len() implies exists|i: int|
            #![trigger s[i]] first_with_url(s, i) && prev[j] == s[i] by {
            let i = choose|i: int| #![trigger sp[i]] first_with_url(sp, i) && prev[j] == sp[i];
            assert(sp[i] == s[i]);
            assert forall|m: int| 0 <= m < i implies #[trigger] s[m].url != s[i].url by {
                assert(sp[m] == s[m]);
            }
            assert(first_with_url(s, i));
        }
        if !has_url(prev, s.last().url) {
            let r = prev.push(s.last());
            law_first_of_each_url_covers(sp);
            assert forall|j: int| #![trigger r[j]] 0 <= j < r.len() implies exists|i: int|
                #![trigger s[i]] first_with_url(s, i) && r[j] == s[i] by {
                if j < r.len() - 1 {
                    assert(r[j] == prev[j]);
                } else {
                    let last = s.len() - 1;
                    assert forall|m: int| 0 <= m < last implies #[trigger] s[m].url != s[last].url by {
                        assert(sp[m] == s[m]);
                        if s[m].url == s[last].url {
                            assert(has_url(prev, sp[m].url));
                        }
                    }
                    assert(first_with_url(s, last));
                    assert(r[j] == s[last]);
                }
            }
        }
    }
}

fn same_text(a: &String, b: &String) -> (r: bool)
    ensures
        r == (a@ == b@),
{
    let x = chars_of(a.as_str());
    equals_str(&x, b.as_str())
}

/// Whether some source of the list has the given URL.
pub fn url_listed(s: &Vec<VideoSource>, url: &String) -> (r: bool)
    ensures
        r == has_url(video_views(s@), url@),
{
    let mut i: usize = 0;
    while i < s.len()
        invariant
            i <= s.len(),
            forall|k: int| 0 <= k < i ==> video_views(s@)[k].url != url@,
        decreases s.len() - i,
    {
        if same_text(&s[i].url, url) {
            assert(video_views(s@)[i as int].url == url@);
            return true;
        }
        i = i + 1;
    }
    false
}

/// Keeps the first source of each URL; the rest keep their order.
pub fn keep_first_per_url(sources: Vec<VideoSource>) -> (r: Vec<VideoSource>)
    ensures
        video_views(r@) == first_of_each_url(video_views(sources@)),
{
    let ghost all = video_views(sources@);
    let n = sources.len();
    let mut rest = sources;
    let mut out: Vec<VideoSource> = Vec::new();
    let mut i: usize = 0;
    while rest.len() > 0
        invariant
            i + rest.len() == n,
            n == all.len(),
            video_views(rest@) == all.skip(i as int),
            video_views(out@) == first_of_each_url(all.take(i as int)),
        decreases rest.len(),
    {
        let ghost old_rest = rest@;
        let s = rest.remove(0);
        proof {
            assert(all.take(i + 1).drop_last() =~= all.take(i as int));
            assert(video_views(old_rest)[0] == all.skip(i as int)[0]);
            assert forall|k: int| 0 <= k < rest@.len() implies #[trigger] video_views(rest@)[k]
                == all.skip(i + 1)[k] by {
                assert(rest@[k] == old_rest[k + 1]);
                assert(video_views(old_rest)[k + 1] == all.skip(i as int)[k + 1]);
            }
            assert(video_views(rest@) =~= all.skip(i + 1));
        }
        let ghost before = out@;
        if !url_listed(&out, &s.url) {
            out.push(s);
            assert(video_views(out@) =~= video_views(before).push(s@));
        }
        i = i + 1;
    }
    assert(all.take(n as int) =~= all);
    out
}

/// The URLs of the list are strictly increasing.
pub open spec fn strictly_sorted_by_url(s: Seq<VideoSourceView>) -> bool {
    forall|i: int, j: int| 0 <= i < j < s.len() ==> text_lt(#[trigger] s[i].url, #[trigger] s[j].url)
}

/// No two sources of the list share a URL.
pub open spec fn distinct_urls(s: Seq<VideoSourceView>) -> bool {
    forall|i: int, j: int| 0 <= i < j < s.len() ==> #[trigger] s[i].url != #[trigger] s[j].url
}

/// `r` holds exactly the sources of `s` (as views), as often as `s` does.
pub open spec fn same_sources(r: Seq<VideoSourceView>, s: Seq<VideoSourceView>) -> bool {
    r.to_multiset() =~= s.to_multiset()
}

/// `v` is the first source of `s` with its URL.
pub open spec fn is_first_of_url(s: Seq<VideoSourceView>, v: VideoSourceView) -> bool {
    exists|i: int| #![trigger s[i]] first_with_url(s, i) && s[i] == v
}

/// `r` is `s` ordered by URL with one source per URL, the first of each:
/// its URLs strictly increase, each of its sources is the first in `s` with
/// its URL, and every URL of `s` is in it.
pub open spec fn url_sorted_unique(s: Seq<VideoSourceView>, r: Seq<VideoSourceView>) -> bool {
    &&& strictly_sorted_by_url(r)
    &&& forall|k: int| 0 <= k < r.len() ==> is_first_of_url(s, #[trigger] r[k])
    &&& forall|i: int| 0 <= i < s.len() ==> has_url(r, #[trigger] s[i].url)
}

fn url_before(a: &VideoSource, b: &VideoSource) -> (r: bool)
    ensures
        r == text_lt(a.url@, b.url@),
{
    let x = chars_of(a.url.as_str());
    let y = chars_of(b.url.as_str());
    text_less(&x, &y)
}

proof fn lemma_insert_keeps_order(o: Seq<VideoSourceView>, x: VideoSourceView, p: int)
    requires
        strictly_sorted_by_url(o),
        0 <= p <= o.len(),
        forall|k: int| 0 <= k < p ==> text_lt(#[trigger] o[k].url, x.url),
        p < o.len() ==> text_lt(x.url, o[p].url),
    ensures
        strictly_sorted_by_url(o.insert(p, x)),
{
    let nv = o.insert(p, x);
    assert forall|a: int, b: int| 0 <= a < b < nv.len() implies text_lt(
        #[trigger] nv[a].url,
        #[trigger] nv[b].url,
    ) by {
        if b < p {
            assert(nv[a] == o[a] && nv[b] == o[b]);
        } else if b == p {
            assert(nv[a] == o[a]);
        } else if a > p {
            assert(nv[a] == o[a - 1] && nv[b] == o[b - 1]);
        } else if a == p {
            assert(nv[b] == o[b - 1]);
            if b - 1 > p {
                lemma_text_lt_transitive(x.url, o[p].url, o[b - 1].url);
            }
        } else {
            assert(nv[a] == o[a] && nv[b] == o[b - 1]);
        }
    }
}

proof fn lemma_position_is_after(
    o: Seq<VideoSourceView>,
    x: VideoSourceView,
    p: int,
    all: Seq<VideoSourceView>,
    i: int,
)
    requires
        0 <= p <= o.len(),
        0 <= i < all.len(),
        all[i] == x,
        distinct_urls(all),
        o.to_multiset() =~= all.take(i).to_multiset(),
        forall|k: int| 0 <= k < p ==> !text_lt(x.url, #[trigger] o[k].url),
    ensures
        forall|k: int| 0 <= k < p ==> text_lt(#[trigger] o[k].url, x.url),
{
    broadcast use vstd::seq_lib::group_to_multiset_ensures;

    assert forall|k: int| 0 <= k < p implies text_lt(#[trigger] o[k].url, x.url) by {
        assert(o.contains(o[k]));
        assert(o.to_multiset().count(o[k]) > 0);
        assert(all.take(i).contains(o[k]));
        let j = choose|j: int| 0 <= j < all.take(i).len() && #[trigger] all.take(i)[j] == o[k];
        assert(all[j] == o[k]);
        assert(all[j].url != all[i].url);
        lemma_text_lt_total(o[k].url, x.url);
    }
}

/// Orders sources with distinct URLs by URL.
pub fn sort_by_url(sources: Vec<VideoSource>) -> (r: Vec<VideoSource>)
    requires
        distinct_urls(video_views(sources@)),
    ensures
        strictly_sorted_by_url(video_views(r@)),
        same_sources(video_views(r@), video_views(sources@)),
{
    let ghost all = video_views(sources@);
    let n = sources.len();
    let mut rest = sources;
    let mut out: Vec<VideoSource> = Vec::new();
    let ghost mut ov: Seq<VideoSourceView> = seq![];
    let mut i: usize = 0;
    proof {
        assert(video_views(out@) =~= ov);
        assert(all.take(0) =~= Seq::<VideoSourceView>::empty());
    }
    while rest.len() > 0
        invariant
            i + rest.len() == n,
            n == all.len(),
            distinct_urls(all),
            video_views(rest@) == all.skip(i as int),
            video_views(out@) == ov,
            ov.len() == i,
            strictly_sorted_by_url(ov),
            ov.to_multiset() =~= all.take(i as int).to_multiset(),
        decreases rest.len(),
    {
        let ghost old_rest = rest@;
        let x = rest.remove(0);
        proof {
            assert(video_views(old_rest)[0] == all.skip(i as int)[0]);
            assert forall|k: int| 0 <= k < rest@.len() implies #[trigger] video_views(rest@)[k]
                == all.skip(i + 1)[k] by {
                assert(rest@[k] == old_rest[k + 1]);
                assert(video_views(old_rest)[k + 1] == all.skip(i as int)[k + 1]);
            }
            assert(video_views(rest@) =~= all.skip(i + 1));
        }
        let mut p: usize = 0;
        while p < out.len() && !url_before(&x, &out[p])
            invariant
                p <= out.len(),
                video_views(out@) == ov,
                forall|k: int| 0 <= k < p ==> !text_lt(x@.url, #[trigger] ov[k].url),
            decreases out.len() - p,
        {
            assert(ov[p as int] == out@[p as int]@);
            p = p + 1;
        }
        proof {
            if p < out.len() {
                assert(ov[p as int] == out@[p as int]@);
            }
            lemma_position_is_after(ov, x@, p as int, all, i as int);
            lemma_insert_keeps_order(ov, x@, p as int);
            broadcast use vstd::seq_lib::group_to_multiset_ensures;
            assert(all.take(i + 1) =~= all.take(i as int).push(all[i as int]));
        }
        out.insert(p, x);
        proof {
            ov = ov.insert(p as int, x@);
            assert(video_views(out@) =~= ov);
        }
        i = i + 1;
    }
    assert(all.take(n as int) =~= all);
    out
}

proof fn lemma_sorted_firsts(s: Seq<VideoSourceView>, r: Seq<VideoSourceView>)
    requires
        strictly_sorted_by_url(r),
        same_sources(r, first_of_each_url(s)),
    ensures
        url_sorted_unique(s, r),
{
    broadcast use vstd::seq_lib::group_to_multiset_ensures;

    law_first_of_each_url_firsts(s);
    law_first_of_each_url_covers(s);
    let f = first_of_each_url(s);
    assert forall|k: int| 0 <= k < r.len() implies is_first_of_url(s, #[trigger] r[k]) by {
        assert(r.contains(r[k]));
        assert(r.to_multiset().count(r[k]) > 0);
        assert(f.contains(r[k]));
        let j = choose|j: int| 0 <= j < f.len() && #[trigger] f[j] == r[k];
        assert(exists|i: int| #![trigger s[i]] first_with_url(s, i) && f[j] == s[i]);
    }
    assert forall|i: int| 0 <= i < s.len() implies has_url(r, #[trigger] s[i].url) by {
        assert(has_url(f, s[i].url));
        let w = choose|w: int| 0 <= w < f.len() && #[trigger] f[w].url == s[i].url;
        assert(f.contains(f[w]));
        assert(f.to_multiset().count(f[w]) > 0);
        assert(r.contains(f[w]));
        let k = choose|k: int| 0 <= k < r.len() && #[trigger] r[k] == f[w];
        assert(r[k].url == s[i].url);
    }
}

/// Orders sources by URL keeping the first source of each URL.
pub fn sort_unique_by_url(sources: Vec<VideoSource>) -> (r: Vec<VideoSource>)
    ensures
        url_sorted_unique(video_views(sources@), video_views(r@)),
{
    let ghost s = video_views(sources@);
    let firsts = keep_first_per_url(sources);
    proof {
        law_first_of_each_url_distinct(s);
    }
    let r = sort_by_url(firsts);
    proof {
        lemma_sorted_firsts(s, video_views(r@));
    }
    r
}

} // verus!
