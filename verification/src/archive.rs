//! Internet Archive discovery: the searches, and the category and source of
//! a search result.
use vstd::prelude::*;
use crate::models::{ContentCategory, SourceType, VideoSource, VideoSourceView, copy_source, video_views};
use crate::text::{
    chars_of, contains_seq, contains_str, decimal, equals_str, lemma_contains_middle, lowercase, occurs_at,
    push_chars, push_decimal, push_str, same_chars, str_lowercase, string_of,
};
use crate::tmdb::{encode_query, url_encoded};
use crate::url_order::{lemma_text_lt_total, lemma_text_lt_transitive, text_less, text_lt};

verus! {

/// The general search for a movie: the title and year among movies with a
/// trailer, featurette, behind-the-scenes, deleted-scene or clip subject.
pub open spec fn general_query(title: Seq<char>, year: u16) -> Seq<char> {
    "title:\""@ + title + "\" AND year:"@ + decimal(year as nat)
        + " AND mediatype:movies AND (subject:trailer OR subject:featurette OR subject:\"behind the scenes\" OR subject:\"deleted scene\" OR subject:clip)"@
}

/// The search of the DVDXtras collection by title or description.
pub open spec fn dvdxtras_query(title: Seq<char>) -> Seq<char> {
    "collection:DVDXtras AND (title:\""@ + title + "\" OR description:\""@ + title + "\")"@
}

/// A document of an Internet Archive search answer.
#[derive(Debug, Clone)]
pub struct ArchiveOrgDoc {
    pub identifier: String,
    pub title: String,
    pub subject: Vec<String>,
    pub description: Option<String>,
    pub collection: Vec<String>,
}

/// Some subject, lowercased, contains the pattern.
pub open spec fn some_subject_contains(subjects: Seq<String>, pat: Seq<char>) -> bool {
    exists|i: int| 0 <= i < subjects.len() && contains_seq(str_lowercase(#[trigger] subjects[i]@), pat)
}

/// Some subject, lowercased, is the text.
pub open spec fn some_subject_is(subjects: Seq<String>, text: Seq<char>) -> bool {
    exists|i: int| 0 <= i < subjects.len() && str_lowercase(#[trigger] subjects[i]@) == text
}

/// The category the subjects name, tried in the order trailer, behind the
/// scenes or making-of, deleted, featurette or EPK, interview or Q&A, clip.
pub open spec fn subjects_category(s: Seq<String>) -> Option<ContentCategory> {
    if some_subject_contains(s, "trailer"@) {
        Some(ContentCategory::Trailer)
    } else if some_subject_contains(s, "behind the scenes"@) || some_subject_contains(s, "making of"@) {
        Some(ContentCategory::BehindTheScenes)
    } else if some_subject_contains(s, "deleted scene"@) || some_subject_contains(s, "deleted"@) {
        Some(ContentCategory::DeletedScene)
    } else if some_subject_contains(s, "featurette"@) || some_subject_is(s, "epk"@) {
        Some(ContentCategory::Featurette)
    } else if some_subject_contains(s, "interview"@) || some_subject_contains(s, "q&a"@) {
        Some(ContentCategory::Interview)
    } else if some_subject_contains(s, "clip"@) {
        Some(ContentCategory::Featurette)
    } else {
        None
    }
}

/// The lowercased title and description joined by a space.
pub open spec fn combined_text(title: Seq<char>, description: Option<Seq<char>>) -> Seq<char> {
    str_lowercase(title) + " "@ + match description {
        Some(d) => str_lowercase(d),
        None => seq![],
    }
}

/// The category the title and description name.
pub open spec fn text_category(c: Seq<char>) -> Option<ContentCategory> {
    if contains_seq(c, "behind the scenes"@) || contains_seq(c, "making of"@) {
        Some(ContentCategory::BehindTheScenes)
    } else if contains_seq(c, "deleted scene"@) {
        Some(ContentCategory::DeletedScene)
    } else if contains_seq(c, "interview"@) || contains_seq(c, "q&a"@) {
        Some(ContentCategory::Interview)
    } else if contains_seq(c, "trailer"@) {
        Some(ContentCategory::Trailer)
    } else if contains_seq(c, "featurette"@) || contains_seq(c, "epk"@) || contains_seq(c, "bonus"@) {
        Some(ContentCategory::Featurette)
    } else if contains_seq(c, "bts"@) {
        Some(ContentCategory::BehindTheScenes)
    } else {
        None
    }
}

/// The category of a document: by its subjects, else by its title and
/// description, else featurette for the DVDXtras collection.
pub open spec fn doc_category(d: ArchiveOrgDoc) -> Option<ContentCategory> {
    match subjects_category(d.subject@) {
        Some(c) => Some(c),
        None => match text_category(
            combined_text(
                d.title@,
                match d.description {
                    Some(x) => Some(x@),
                    None => None,
                },
            ),
        ) {
            Some(c) => Some(c),
            None => if exists|i: int| 0 <= i < d.collection@.len() && #[trigger] d.collection@[i]@ == "DVDXtras"@ {
                Some(ContentCategory::Featurette)
            } else {
                None
            },
        },
    }
}

/// The source for a document, when it has a category; its page is
/// `https://archive.org/details/{identifier}`.
pub open spec fn archive_source_of(d: ArchiveOrgDoc) -> Option<VideoSourceView> {
    match doc_category(d) {
        Some(c) => Some(
            VideoSourceView {
                url: "https://archive.org/details/"@ + d.identifier@,
                source_type: SourceType::ArchiveOrg,
                category: c,
                title: d.title@,
                season_number: None,
                duration_secs: None,
            },
        ),
        None => None,
    }
}

/// No document before position `i` has the identifier of document `i`.
pub open spec fn first_of_identifier(docs: Seq<ArchiveOrgDoc>, i: int) -> bool {
    0 <= i < docs.len() && forall|j: int| 0 <= j < i ==> #[trigger] docs[j].identifier@ != docs[i].identifier@
}

/// The sources of the documents at the given positions, in that order,
/// documents without a category left out.
pub open spec fn sources_at(docs: Seq<ArchiveOrgDoc>, order: Seq<int>) -> Seq<VideoSourceView>
    decreases order.len(),
{
    if order.len() == 0 {
        seq![]
    } else {
        let prev = sources_at(docs, order.drop_last());
        match archive_source_of(docs[order.last()]) {
            Some(v) => prev.push(v),
            None => prev,
        }
    }
}

/// `order` lists the first document of each identifier, by identifier in
/// increasing order: as a stable sort by identifier followed by removing
/// repeated identifiers leaves them.
pub open spec fn identifier_order(docs: Seq<ArchiveOrgDoc>, order: Seq<int>) -> bool {
    &&& forall|k: int| 0 <= k < order.len() ==> first_of_identifier(docs, #[trigger] order[k])
    &&& forall|a: int, b: int|
        0 <= a < b < order.len() ==> text_lt(
            #[trigger] docs[order[a]].identifier@,
            #[trigger] docs[order[b]].identifier@,
        )
    &&& forall|i: int| first_of_identifier(docs, i) ==> #[trigger] order.contains(i)
}

/// Internet Archive content discoverer.
pub struct ArchiveOrgDiscoverer;

fn any_contains(subjects: &[String], pat: &str) -> (r: bool)
    ensures
        r == some_subject_contains(subjects@, pat@),
{
    let p = chars_of(pat);
    let mut i: usize = 0;
    while i < subjects.len()
        invariant
            i <= subjects.len(),
            p@ == pat@,
            forall|k: int| 0 <= k < i ==> !contains_seq(str_lowercase(#[trigger] subjects@[k]@), pat@),
        decreases subjects.len() - i,
    {
        let l = lowercase(subjects[i].as_str());
        let lc = chars_of(l.as_str());
        if crate::text::contains(&lc, &p) {
            assert(contains_seq(str_lowercase(subjects@[i as int]@), pat@));
            return true;
        }
        i = i + 1;
    }
    false
}

fn any_is(subjects: &[String], text: &str) -> (r: bool)
    ensures
        r == some_subject_is(subjects@, text@),
{
    let mut i: usize = 0;
    while i < subjects.len()
        invariant
            i <= subjects.len(),
            forall|k: int| 0 <= k < i ==> str_lowercase(#[trigger] subjects@[k]@) != text@,
        decreases subjects.len() - i,
    {
        let l = lowercase(subjects[i].as_str());
        let lc = chars_of(l.as_str());
        if equals_str(&lc, text) {
            assert(str_lowercase(subjects@[i as int]@) == text@);
            return true;
        }
        i = i + 1;
    }
    false
}

fn in_dvdxtras(collection: &Vec<String>) -> (r: bool)
    ensures
        r == exists|i: int| 0 <= i < collection@.len() && #[trigger] collection@[i]@ == "DVDXtras"@,
{
    let mut i: usize = 0;
    while i < collection.len()
        invariant
            i <= collection.len(),
            forall|k: int| 0 <= k < i ==> #[trigger] collection@[k]@ != "DVDXtras"@,
        decreases collection.len() - i,
    {
        let cc = chars_of(collection[i].as_str());
        if equals_str(&cc, "DVDXtras") {
            assert(collection@[i as int]@ == "DVDXtras"@);
            return true;
        }
        i = i + 1;
    }
    false
}

impl ArchiveOrgDiscoverer {
    /// The general search for a movie: the title and year among movies with
    /// a trailer, featurette, behind-the-scenes, deleted-scene or clip
    /// subject.
    pub fn build_general_query(title: &str, year: u16) -> (r: String)
        ensures
            r@ == general_query(title@, year),
    {
        let mut v: Vec<char> = Vec::new();
        push_str(&mut v, "title:\"");
        push_str(&mut v, title);
        push_str(&mut v, "\" AND year:");
        push_decimal(&mut v, year as u64);
        push_str(
            &mut v,
            " AND mediatype:movies AND (subject:trailer OR subject:featurette OR subject:\"behind the scenes\" OR subject:\"deleted scene\" OR subject:clip)",
        );
        string_of(&v)
    }

    /// The search of the DVDXtras collection by title or description.
    pub fn build_dvdxtras_query(title: &str) -> (r: String)
        ensures
            r@ == dvdxtras_query(title@),
    {
        let mut v: Vec<char> = Vec::new();
        push_str(&mut v, "collection:DVDXtras AND (title:\"");
        push_str(&mut v, title);
        push_str(&mut v, "\" OR description:\"");
        push_str(&mut v, title);
        push_str(&mut v, "\")");
        string_of(&v)
    }

    /// The advanced-search request for a query: identifier, title, subject,
    /// description and collection of 15 results, as JSON.
    pub fn search_url(query: &str) -> (r: String)
        ensures
            r@ == "https://archive.org/advancedsearch.php?q="@ + url_encoded(query@)
                + "&fl[]=identifier&fl[]=title&fl[]=subject&fl[]=description&fl[]=collection&rows=15&output=json"@,
    {
        let q = encode_query(query);
        let mut v: Vec<char> = Vec::new();
        push_str(&mut v, "https://archive.org/advancedsearch.php?q=");
        push_str(&mut v, q.as_str());
        push_str(
            &mut v,
            "&fl[]=identifier&fl[]=title&fl[]=subject&fl[]=description&fl[]=collection&rows=15&output=json",
        );
        string_of(&v)
    }

    /// Whether the general search is made: only for movies before 2010.
    pub fn uses_general_search(year: u16) -> (r: bool)
        ensures
            r == (year < 2010),
    {
        year < 2010
    }

    /// The category the subjects name, if any.
    pub fn map_subjects(subjects: &[String]) -> (r: Option<ContentCategory>)
        ensures
            r == subjects_category(subjects@),
    {
        if any_contains(subjects, "trailer") {
            Some(ContentCategory::Trailer)
        } else if any_contains(subjects, "behind the scenes") || any_contains(subjects, "making of") {
            Some(ContentCategory::BehindTheScenes)
        } else if any_contains(subjects, "deleted scene") || any_contains(subjects, "deleted") {
            Some(ContentCategory::DeletedScene)
        } else if any_contains(subjects, "featurette") || any_is(subjects, "epk") {
            Some(ContentCategory::Featurette)
        } else if any_contains(subjects, "interview") || any_contains(subjects, "q&a") {
            Some(ContentCategory::Interview)
        } else if any_contains(subjects, "clip") {
            Some(ContentCategory::Featurette)
        } else {
            None
        }
    }

    /// The category the title and description name, if any.
    pub fn infer_category_from_text(title: &str, description: Option<&str>) -> (r: Option<
        ContentCategory,
    >)
        ensures
            r == text_category(
                combined_text(
                    title@,
                    match description {
                        Some(d) => Some(d@),
                        None => None,
                    },
                ),
            ),
    {
        let t = lowercase(title);
        let mut c = chars_of(t.as_str());
        push_str(&mut c, " ");
        match description {
            Some(d) => {
                let dl = lowercase(d);
                push_str(&mut c, dl.as_str());
            },
            None => {
                assert(c@ + seq![] =~= c@);
            },
        }
        if contains_str(&c, "behind the scenes") || contains_str(&c, "making of") {
            Some(ContentCategory::BehindTheScenes)
        } else if contains_str(&c, "deleted scene") {
            Some(ContentCategory::DeletedScene)
        } else if contains_str(&c, "interview") || contains_str(&c, "q&a") {
            Some(ContentCategory::Interview)
        } else if contains_str(&c, "trailer") {
            Some(ContentCategory::Trailer)
        } else if contains_str(&c, "featurette") || contains_str(&c, "epk") || contains_str(&c, "bonus") {
            Some(ContentCategory::Featurette)
        } else if contains_str(&c, "bts") {
            Some(ContentCategory::BehindTheScenes)
        } else {
            None
        }
    }

    /// The source for a document, when it has a category; its page is
    /// `https://archive.org/details/{identifier}`.
    pub fn doc_to_video_source(doc: ArchiveOrgDoc) -> (r: Option<VideoSource>)
        ensures
            match archive_source_of(doc) {
                Some(v) => r matches Some(s) && s@ == v,
                None => r is None,
            },
    {
        let desc: Option<&str> = match &doc.description {
            Some(d) => Some(d.as_str()),
            None => None,
        };
        let category = match Self::map_subjects(doc.subject.as_slice()) {
            Some(c) => Some(c),
            None => match Self::infer_category_from_text(doc.title.as_str(), desc) {
                Some(c) => Some(c),
                None => if in_dvdxtras(&doc.collection) {
                    Some(ContentCategory::Featurette)
                } else {
                    None
                },
            },
        };
        match category {
            Some(c) => {
                let mut u: Vec<char> = Vec::new();
                push_str(&mut u, "https://archive.org/details/");
                push_str(&mut u, doc.identifier.as_str());
                Some(
                    VideoSource {
                        url: string_of(&u),
                        source_type: SourceType::ArchiveOrg,
                        category: c,
                        title: doc.title,
                        season_number: None,
                        duration_secs: None,
                    },
                )
            },
            None => None,
        }
    }
}

proof fn lemma_insert_keeps_identifier_order(
    docs: Seq<ArchiveOrgDoc>,
    o: Seq<int>,
    x: int,
    p: int,
)
    requires
        0 <= p <= o.len(),
        forall|k: int| 0 <= k < o.len() ==> 0 <= #[trigger] o[k] < docs.len(),
        0 <= x < docs.len(),
        forall|a: int, b: int|
            0 <= a < b < o.len() ==> text_lt(
                #[trigger] docs[o[a]].identifier@,
                #[trigger] docs[o[b]].identifier@,
            ),
        forall|k: int| 0 <= k < p ==> text_lt(#[trigger] docs[o[k]].identifier@, docs[x].identifier@),
        p < o.len() ==> text_lt(docs[x].identifier@, docs[o[p]].identifier@),
    ensures
        forall|a: int, b: int|
            0 <= a < b < o.insert(p, x).len() ==> text_lt(
                #[trigger] docs[o.insert(p, x)[a]].identifier@,
                #[trigger] docs[o.insert(p, x)[b]].identifier@,
            ),
{
    let nv = o.insert(p, x);
    assert forall|a: int, b: int| 0 <= a < b < nv.len() implies text_lt(
        #[trigger] docs[nv[a]].identifier@,
        #[trigger] docs[nv[b]].identifier@,
    ) by {
        if b < p {
            assert(nv[a] == o[a] && nv[b] == o[b]);
        } else if b == p {
            assert(nv[a] == o[a]);
        } else if a > p {
            assert(nv[a] == o[a - 1] && nv[b] == o[b - 1]);
        } else if a == p {
            assert(nv[b] == o[b - 1]);
            if b - 1 > p {
                lemma_text_lt_transitive(
                    docs[x].identifier@,
                    docs[o[p]].identifier@,
                    docs[o[b - 1]].identifier@,
                );
            }
        } else {
            assert(nv[a] == o[a] && nv[b] == o[b - 1]);
        }
    }
}

impl ArchiveOrgDiscoverer {
    /// The sources of the documents of both searches: ordered by identifier
    /// with the first document of each identifier kept, then each turned into
    /// a source, those without a category left out.
    pub fn sources_from_docs(docs: Vec<ArchiveOrgDoc>) -> (r: Vec<VideoSource>)
        ensures
            exists|order: Seq<int>|
                identifier_order(docs@, order) && video_views(r@) == sources_at(docs@, order),
    {
        let ghost all = docs@;
        let n = docs.len();
        // The identifiers, and the source of each document.
        let mut ids: Vec<Vec<char>> = Vec::new();
        let mut conv: Vec<Option<VideoSource>> = Vec::new();
        let mut rest = docs;
        let mut i: usize = 0;
        while rest.len() > 0
            invariant
                i + rest.len() == n,
                n == all.len(),
                rest@ == all.skip(i as int),
                ids@.len() == i,
                conv@.len() == i,
                forall|k: int| 0 <= k < i ==> (#[trigger] ids@[k])@ == all[k].identifier@,
                forall|k: int|
                    0 <= k < i ==> match archive_source_of(all[k]) {
                        Some(v) => (#[trigger] conv@[k]) matches Some(s) && s@ == v,
                        None => conv@[k] is None,
                    },
            decreases rest.len(),
        {
            let ghost old_rest = rest@;
            let d = rest.remove(0);
            proof {
                assert(old_rest[0] == all[i as int]);
                assert(rest@ =~= all.skip(i + 1));
            }
            ids.push(chars_of(d.identifier.as_str()));
            conv.push(Self::doc_to_video_source(d));
            i = i + 1;
        }
        // The first document of each identifier, ordered by identifier.
        let mut ord: Vec<usize> = Vec::new();
        let ghost mut ov: Seq<int> = seq![];
        let mut j: usize = 0;
        while j < n
            invariant
                j <= n,
                n == all.len(),
                ids@.len() == n,
                forall|k: int| 0 <= k < n ==> (#[trigger] ids@[k])@ == all[k].identifier@,
                ov.len() == ord@.len(),
                forall|k: int| 0 <= k < ord@.len() ==> #[trigger] ov[k] == ord@[k] as int,
                forall|k: int| 0 <= k < ov.len() ==> 0 <= #[trigger] ov[k] < j,
                forall|k: int| 0 <= k < ord@.len() ==> (#[trigger] ord@[k]) < j,
                forall|k: int| 0 <= k < ov.len() ==> first_of_identifier(all, #[trigger] ov[k]),
                forall|a: int, b: int|
                    0 <= a < b < ov.len() ==> text_lt(
                        #[trigger] all[ov[a]].identifier@,
                        #[trigger] all[ov[b]].identifier@,
                    ),
                forall|x: int| 0 <= x < j && first_of_identifier(all, x) ==> #[trigger] ov.contains(x),
            decreases n - j,
        {
            let mut seen = false;
            let mut m: usize = 0;
            while m < j
                invariant
                    m <= j,
                    j < n,
                    ids@.len() == n,
                    forall|k: int| 0 <= k < n ==> (#[trigger] ids@[k])@ == all[k].identifier@,
                    !seen ==> forall|k: int| 0 <= k < m ==> #[trigger] all[k].identifier@ != all[j as int].identifier@,
                    seen ==> !first_of_identifier(all, j as int),
                decreases j - m,
            {
                if !seen && same_chars(&ids[m], &ids[j]) {
                    seen = true;
                    assert(all[m as int].identifier@ == all[j as int].identifier@);
                }
                m = m + 1;
            }
            if !seen {
                let mut p: usize = 0;
                while p < ord.len() && text_less(&ids[ord[p]], &ids[j])
                    invariant
                        p <= ord@.len(),
                        j < n,
                        ids@.len() == n,
                        forall|k: int| 0 <= k < n ==> (#[trigger] ids@[k])@ == all[k].identifier@,
                        ov.len() == ord@.len(),
                        forall|k: int| 0 <= k < ord@.len() ==> #[trigger] ov[k] == ord@[k] as int,
                        forall|k: int| 0 <= k < ov.len() ==> 0 <= #[trigger] ov[k] < j,
                        forall|k: int| 0 <= k < ord@.len() ==> (#[trigger] ord@[k]) < j,
                        forall|k: int|
                            0 <= k < p ==> text_lt(#[trigger] all[ov[k]].identifier@, all[j as int].identifier@),
                    decreases ord@.len() - p,
                {
                    p = p + 1;
                }
                proof {
                    assert(first_of_identifier(all, j as int));
                    if p < ord@.len() {
                        assert(ov[p as int] < j);
                        assert(first_of_identifier(all, j as int));
                        assert(all[ov[p as int]].identifier@ != all[j as int].identifier@);
                        lemma_text_lt_total(all[ov[p as int]].identifier@, all[j as int].identifier@);
                    }
                    lemma_insert_keeps_identifier_order(all, ov, j as int, p as int);
                }
                ord.insert(p, j);
                proof {
                    let nv = ov.insert(p as int, j as int);
                    assert forall|x: int| 0 <= x < j + 1 && first_of_identifier(all, x) implies #[trigger] nv.contains(x) by {
                        if x == j {
                            assert(nv[p as int] == j);
                        } else {
                            assert(ov.contains(x));
                            let k = choose|k: int| 0 <= k < ov.len() && ov[k] == x;
                            if k < p {
                                assert(nv[k] == x);
                            } else {
                                assert(nv[k + 1] == x);
                            }
                        }
                    }
                    ov = nv;
                }
            }
            j = j + 1;
        }
        // The sources of the documents in that order.
        let mut out: Vec<VideoSource> = Vec::new();
        let mut k: usize = 0;
        while k < ord.len()
            invariant
                k <= ord@.len(),
                n == all.len(),
                conv@.len() == n,
                ov.len() == ord@.len(),
                forall|q: int| 0 <= q < ord@.len() ==> #[trigger] ov[q] == ord@[q] as int,
                forall|q: int| 0 <= q < ov.len() ==> 0 <= #[trigger] ov[q] < n,
                forall|q: int|
                    0 <= q < n ==> match archive_source_of(all[q]) {
                        Some(v) => (#[trigger] conv@[q]) matches Some(s) && s@ == v,
                        None => conv@[q] is None,
                    },
                video_views(out@) == sources_at(all, ov.take(k as int)),
            decreases ord@.len() - k,
        {
            let x = ord[k];
            proof {
                assert(ov.take(k + 1).drop_last() =~= ov.take(k as int));
                assert(ov.take(k + 1).last() == x as int);
            }
            match &conv[x] {
                Some(s) => {
                    let ghost before = video_views(out@);
                    out.push(copy_source(s));
                    assert(video_views(out@) =~= before.push(s@));
                },
                None => {},
            }
            k = k + 1;
        }
        assert(ov.take(ord@.len() as int) =~= ov);
        assert(identifier_order(all, ov));
        out
    }
}

/// The general search names the title as `title:"{title}"`, the year as
/// `year:{year}` and asks for movies; the DVDXtras search names the title
/// the same way.
pub proof fn law_archive_queries_name_title_and_year(title: Seq<char>, year: u16)
    ensures
        contains_seq(general_query(title, year), "title:\""@ + title + "\""@),
        contains_seq(general_query(title, year), "year:"@ + decimal(year as nat)),
        contains_seq(general_query(title, year), "mediatype:movies"@),
        contains_seq(dvdxtras_query(title), "title:\""@ + title + "\""@),
{
    reveal_strlit("title:\"");
    reveal_strlit("\" AND year:");
    reveal_strlit("\"");
    reveal_strlit("year:");
    reveal_strlit("\" AND ");
    reveal_strlit("collection:DVDXtras AND (");
    reveal_strlit("collection:DVDXtras AND (title:\"");
    reveal_strlit("\" OR description:\"");
    let tail = " AND mediatype:movies AND (subject:trailer OR subject:featurette OR subject:\"behind the scenes\" OR subject:\"deleted scene\" OR subject:clip)"@;
    let g = general_query(title, year);
    let pattern = "title:\""@ + title + "\""@;
    reveal_strlit(" AND ");
    assert("\" AND year:"@ =~= "\""@ + " AND "@ + "year:"@);
    assert("\" AND "@ =~= "\""@ + " AND "@);
    assert(g =~= seq![] + pattern + (" AND "@ + "year:"@ + decimal(year as nat) + tail));
    lemma_contains_middle(seq![], pattern, " AND "@ + "year:"@ + decimal(year as nat) + tail);
    assert(g =~= ("title:\""@ + title + "\" AND "@) + ("year:"@ + decimal(year as nat)) + tail);
    lemma_contains_middle(
        "title:\""@ + title + "\" AND "@,
        "year:"@ + decimal(year as nat),
        tail,
    );
    let after = " AND (subject:trailer OR subject:featurette OR subject:\"behind the scenes\" OR subject:\"deleted scene\" OR subject:clip)"@;
    reveal_strlit(" AND mediatype:movies AND (subject:trailer OR subject:featurette OR subject:\"behind the scenes\" OR subject:\"deleted scene\" OR subject:clip)");
    reveal_strlit(" AND (subject:trailer OR subject:featurette OR subject:\"behind the scenes\" OR subject:\"deleted scene\" OR subject:clip)");
    reveal_strlit("mediatype:movies");
    assert(tail =~= " AND "@ + "mediatype:movies"@ + after);
    assert(g =~= ("title:\""@ + title + "\" AND "@ + "year:"@ + decimal(year as nat) + " AND "@)
        + "mediatype:movies"@ + after);
    lemma_contains_middle(
        "title:\""@ + title + "\" AND "@ + "year:"@ + decimal(year as nat) + " AND "@,
        "mediatype:movies"@,
        after,
    );
    let d = dvdxtras_query(title);
    let rest = " OR description:\""@ + title + "\")"@;
    reveal_strlit(" OR description:\"");
    assert("\" OR description:\""@ =~= "\""@ + " OR description:\""@);
    assert("collection:DVDXtras AND (title:\""@ =~= "collection:DVDXtras AND ("@ + "title:\""@);
    assert(d =~= "collection:DVDXtras AND ("@ + pattern + rest);
    lemma_contains_middle("collection:DVDXtras AND ("@, pattern, rest);
}

/// The DVDXtras search never constrains the year: for a title without a
/// colon, `year:` occurs nowhere in it.
pub proof fn law_dvdxtras_query_has_no_year(title: Seq<char>)
    requires
        forall|k: int| 0 <= k < title.len() ==> title[k] != ':',
    ensures
        !contains_seq(dvdxtras_query(title), "year:"@),
{
    let pre = "collection:DVDXtras AND (title:\""@;
    let mid = "\" OR description:\""@;
    let end = "\")"@;
    reveal_strlit("collection:DVDXtras AND (title:\"");
    reveal_strlit("\" OR description:\"");
    reveal_strlit("\")");
    reveal_strlit("year:");
    let q = dvdxtras_query(title);
    let a = pre.len() as int;
    let b = a + title.len();
    let c = b + mid.len();
    let d = c + title.len();
    assert(q.len() == d + end.len());
    assert forall|i: int| !occurs_at(q, "year:"@, i) by {
        if occurs_at(q, "year:"@, i) {
            assert(q.subrange(i, i + 5) == "year:"@);
            assert(q[i + 4] == q.subrange(i, i + 5)[4]);
            assert(q[i] == q.subrange(i, i + 5)[0]);
            assert(q[i + 4] == ':');
            assert(q[i] == 'y');
            if i + 4 < a {
                assert(q[i + 4] == pre[i + 4]);
                assert(q[i] == pre[i]);
            } else if i + 4 < b {
                assert(q[i + 4] == title[i + 4 - a]);
            } else if i + 4 < c {
                assert(q[i + 4] == mid[i + 4 - b]);
                if i >= b {
                    assert(q[i] == mid[i - b]);
                } else {
                    assert(i + 4 - b < 4);
                }
            } else if i + 4 < d {
                assert(q[i + 4] == title[i + 4 - c]);
            } else {
                assert(q[i + 4] == end[i + 4 - d]);
            }
        }
    }
}

} // verus!
