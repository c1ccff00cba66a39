use vstd::prelude::*;
use vstd::string::*;
use crate::text::{
    contains_str, has_substring, join_slash, lemma_push_to_set, opt_view, push_unique, slash_join,
    trim_end_slashes, trim_trailing, vec_contains,
};

verus! {

/// The inner HTML of every `a` element of an HTML document, in document order.
pub uninterp spec fn anchor_inner_html(html: Seq<char>) -> Seq<Seq<char>>;

/// Relies on scraper's `Html::parse_document`, `Selector::parse`, `Html::select` and
/// `ElementRef::inner_html`: the inner HTML of each element that the selector `a` picks, in
/// document order. With scraper's `deterministic` feature, which this crate turns on,
/// attributes are kept in source order, so the result depends on the text of the document
/// alone.
#[verifier::external_body]
fn anchor_texts(html: &str) -> (r: Vec<String>)
    ensures
        r.deep_view() == anchor_inner_html(html@),
{
    let document = scraper::Html::parse_document(html);
    match scraper::Selector::parse("a") {
        Ok(selector) => document.select(&selector).map(|e| e.inner_html()).collect(),
        Err(_) => Vec::new(),
    }
}

/// The link back to the parent directory, which every listing holds.
pub open spec fn is_parent_link(s: Seq<char>) -> bool {
    s == seq!['.', '.']
}

/// The name of a top-level entry: its link text without trailing slashes.
pub open spec fn entry_name(raw: Seq<char>) -> Seq<char> {
    trim_trailing(raw, '/')
}

/// A name passes when no filter is set or when it holds the filter as a substring.
pub open spec fn passes_filter(name: Seq<char>, filter: Option<Seq<char>>) -> bool {
    match filter {
        Some(f) => has_substring(name, f),
        None => true,
    }
}

pub open spec fn keeps_entry(name: Seq<char>, filter: Option<Seq<char>>) -> bool {
    !is_parent_link(name) && passes_filter(name, filter)
}

/// The top-level entries of a listing: the names of its links, without the parent link and
/// the names that fail the filter, each once, in order of first appearance.
pub open spec fn top_level_seq(raw: Seq<Seq<char>>, filter: Option<Seq<char>>) -> Seq<Seq<char>>
    decreases raw.len(),
{
    if raw.len() == 0 {
        seq![]
    } else {
        let rest = top_level_seq(raw.drop_last(), filter);
        let n = entry_name(raw.last());
        if keeps_entry(n, filter) && !rest.contains(n) {
            rest.push(n)
        } else {
            rest
        }
    }
}

/// The entries of the sub-listing of `cand`: each link but the parent link, as
/// `cand/link` with the link text as it stands, each once, in order of first appearance.
pub open spec fn sub_seq(cand: Seq<char>, raw: Seq<Seq<char>>) -> Seq<Seq<char>>
    decreases raw.len(),
{
    if raw.len() == 0 {
        seq![]
    } else {
        let rest = sub_seq(cand, raw.drop_last());
        let x = raw.last();
        if !is_parent_link(entry_name(x)) && !rest.contains(slash_join(cand, x)) {
            rest.push(slash_join(cand, x))
        } else {
            rest
        }
    }
}

/// The union of the sub-listing entries of every top-level entry; `subs[i]` is the
/// sub-listing of `tops[i]`.
pub open spec fn subdir_set(tops: Seq<Seq<char>>, subs: Seq<Seq<Seq<char>>>) -> Set<Seq<char>>
    decreases tops.len(),
{
    if tops.len() == 0 || subs.len() == 0 {
        Set::empty()
    } else {
        subdir_set(tops.drop_last(), subs.drop_last()).union(
            sub_seq(tops.last(), subs.last()).to_set(),
        )
    }
}

/// What one poll observes: the filtered top-level entries, or, when recursing, the entries
/// of their sub-listings.
pub open spec fn poll_candidates(
    listing: Seq<Seq<char>>,
    filter: Option<Seq<char>>,
    recurse: bool,
    subs: Seq<Seq<Seq<char>>>,
) -> Set<Seq<char>> {
    if recurse {
        subdir_set(top_level_seq(listing, filter), subs)
    } else {
        top_level_seq(listing, filter).to_set()
    }
}

/// What a poll reports: nothing when no snapshot was taken yet, else what is new.
pub open spec fn poll_delta(snapshot: Set<Seq<char>>, candidates: Set<Seq<char>>) -> Set<
    Seq<char>,
> {
    if snapshot.is_empty() {
        Set::empty()
    } else {
        candidates.difference(snapshot)
    }
}

/// `base/part/`
pub open spec fn listing_url_of(base: Seq<char>, part: Seq<char>) -> Seq<char> {
    slash_join(slash_join(base, part), seq![])
}

/// `base/part/cand/`
pub open spec fn subdir_url_of(base: Seq<char>, part: Seq<char>, cand: Seq<char>) -> Seq<char> {
    slash_join(slash_join(slash_join(base, part), cand), seq![])
}

/// The first poll of a source, whose snapshot is still empty as `new` leaves it, reports
/// nothing, whatever the listing holds; the snapshot then holds everything observed.
pub proof fn lemma_first_poll_is_baseline(source: MozData, candidates: Set<Seq<char>>)
    requires
        source.data@.len() == 0,
    ensures
        source.snapshot() == Set::<Seq<char>>::empty(),
        poll_delta(source.snapshot(), candidates) == Set::<Seq<char>>::empty(),
{
    assert(source.snapshot() =~= Set::<Seq<char>>::empty());
}

/// Once a snapshot was taken, a poll reports exactly the observed entries that it lacks.
pub proof fn lemma_later_poll_reports_new_entries(
    snapshot: Set<Seq<char>>,
    candidates: Set<Seq<char>>,
)
    requires
        !snapshot.is_empty(),
    ensures
        poll_delta(snapshot, candidates) == candidates.difference(snapshot),
{
}

/// Polling twice over the same upstream content reports nothing the second time.
pub proof fn lemma_repeated_poll_reports_nothing(candidates: Set<Seq<char>>)
    ensures
        poll_delta(candidates, candidates) == Set::<Seq<char>>::empty(),
{
    assert(candidates.difference(candidates) =~= Set::empty());
}

/// Every top-level entry is a name other than the parent link that passes the filter.
pub proof fn lemma_top_level_entries_pass(raw: Seq<Seq<char>>, filter: Option<Seq<char>>, n: Seq<char>)
    requires
        top_level_seq(raw, filter).contains(n),
    ensures
        keeps_entry(n, filter),
    decreases raw.len(),
{
    if raw.len() > 0 {
        let rest = top_level_seq(raw.drop_last(), filter);
        if rest.contains(n) {
            lemma_top_level_entries_pass(raw.drop_last(), filter, n);
        } else {
            let e = entry_name(raw.last());
            if keeps_entry(e, filter) && !rest.contains(e) {
                let j = choose|j: int| 0 <= j < rest.push(e).len() && rest.push(e)[j] == n;
                if j < rest.len() {
                    assert(rest[j] == n);
                }
            }
        }
    }
}

proof fn lemma_sub_entries_under(cand: Seq<char>, raw: Seq<Seq<char>>, x: Seq<char>)
    requires
        sub_seq(cand, raw).contains(x),
    ensures
        exists|y: Seq<char>| x == slash_join(cand, y),
    decreases raw.len(),
{
    if raw.len() > 0 {
        let rest = sub_seq(cand, raw.drop_last());
        if rest.contains(x) {
            lemma_sub_entries_under(cand, raw.drop_last(), x);
        } else {
            let e = slash_join(cand, raw.last());
            if !is_parent_link(entry_name(raw.last())) && !rest.contains(e) {
                let j = choose|j: int| 0 <= j < rest.push(e).len() && rest.push(e)[j] == x;
                if j < rest.len() {
                    assert(rest[j] == x);
                }
                assert(x == slash_join(cand, raw.last()));
            }
        }
    }
}

proof fn lemma_subdir_entries_under(
    tops: Seq<Seq<char>>,
    subs: Seq<Seq<Seq<char>>>,
    x: Seq<char>,
)
    requires
        subdir_set(tops, subs).contains(x),
    ensures
        exists|t: Seq<char>, y: Seq<char>| tops.contains(t) && x == slash_join(t, y),
    decreases tops.len(),
{
    if tops.len() > 0 && subs.len() > 0 {
        if subdir_set(tops.drop_last(), subs.drop_last()).contains(x) {
            lemma_subdir_entries_under(tops.drop_last(), subs.drop_last(), x);
            let (t, y) = choose|t: Seq<char>, y: Seq<char>|
                tops.drop_last().contains(t) && x == slash_join(t, y);
            let j = choose|j: int| 0 <= j < tops.drop_last().len() && tops.drop_last()[j] == t;
            assert(tops[j] == t);
        } else {
            lemma_sub_entries_under(tops.last(), subs.last(), x);
            assert(tops[tops.len() - 1] == tops.last());
        }
    }
}

/// The filter acts before recursion and before the diff: every entry that a poll reports
/// is a top-level entry that passes the filter, or, when recursing, lies under one.
pub proof fn lemma_reported_entries_pass_filter(
    listing: Seq<Seq<char>>,
    filter: Option<Seq<char>>,
    recurse: bool,
    subs: Seq<Seq<Seq<char>>>,
    snapshot: Set<Seq<char>>,
    x: Seq<char>,
)
    requires
        poll_delta(snapshot, poll_candidates(listing, filter, recurse, subs)).contains(x),
    ensures
        exists|t: Seq<char>|
            #[trigger] top_level_seq(listing, filter).contains(t) && passes_filter(t, filter) && (
            if recurse {
                exists|y: Seq<char>| x == slash_join(t, y)
            } else {
                x == t
            }),
{
    let tops = top_level_seq(listing, filter);
    if recurse {
        lemma_subdir_entries_under(tops, subs, x);
        let (t, y) = choose|t: Seq<char>, y: Seq<char>| tops.contains(t) && x == slash_join(t, y);
        lemma_top_level_entries_pass(listing, filter, t);
    } else {
        lemma_top_level_entries_pass(listing, filter, x);
    }
}

/// A poll whose sub-listings do not line up with the top-level entries.
#[derive(Debug, Clone, Copy, PartialEq, Eq, Structural)]
pub enum PollError {
    SubListingMismatch,
}

/// A watched directory listing and the entries seen at the last poll.
pub struct MozData {
    pub url_part: String,
    pub query_subdirs: bool,
    pub filter: Option<String>,
    pub data: Vec<String>,
    pub base_url: String,
}

fn parent_link(s: &str) -> (r: bool)
    ensures
        r == is_parent_link(s@),
{
    let n = s.unicode_len();
    if n != 2 {
        return false;
    }
    let r = s.get_char(0) == '.' && s.get_char(1) == '.';
    assert(r ==> s@ =~= seq!['.', '.']);
    r
}

fn passes(name: &str, filter: &Option<String>) -> (r: bool)
    ensures
        r == passes_filter(name@, opt_view(*filter)),
{
    match filter {
        Some(f) => contains_str(name, f.as_str()),
        None => true,
    }
}

impl MozData {
    pub open spec fn wf(&self) -> bool {
        self.data.deep_view().no_duplicates()
    }

    /// The entries seen at the last poll.
    pub open spec fn snapshot(&self) -> Set<Seq<char>> {
        self.data.deep_view().to_set()
    }

    pub open spec fn filter_view(&self) -> Option<Seq<char>> {
        opt_view(self.filter)
    }

    /// Everything but the snapshot is as in `other`.
    pub open spec fn same_source(&self, other: &MozData) -> bool {
        &&& self.url_part == other.url_part
        &&& self.query_subdirs == other.query_subdirs
        &&& self.filter == other.filter
        &&& self.base_url == other.base_url
    }

    pub fn new(url_part: &str, filter: Option<&str>, query_subdirs: bool) -> (r: Self)
        ensures
            r.wf(),
            r.url_part@ == url_part@,
            r.query_subdirs == query_subdirs,
            r.filter_view() == match filter {
                Some(f) => Some(f@),
                None => None::<Seq<char>>,
            },
            r.data@.len() == 0,
            r.base_url@ == "https://ftp.mozilla.org/pub"@,
    {
        let filter = match filter {
            Some(f) => Some(String::from_str(f)),
            None => None,
        };
        MozData {
            url_part: String::from_str(url_part),
            query_subdirs,
            filter,
            data: Vec::new(),
            base_url: String::from_str("https://ftp.mozilla.org/pub"),
        }
    }

    /// The address of the top-level listing.
    pub fn listing_url(&self) -> (r: String)
        ensures
            r@ == listing_url_of(self.base_url@, self.url_part@),
    {
        let dir = join_slash(self.base_url.as_str(), self.url_part.as_str());
        proof {
            reveal_strlit("");
        }
        join_slash(dir.as_str(), "")
    }

    /// The address of the sub-listing of the top-level entry `cand`.
    pub fn subdir_url(&self, cand: &str) -> (r: String)
        ensures
            r@ == subdir_url_of(self.base_url@, self.url_part@, cand@),
    {
        let dir = join_slash(self.base_url.as_str(), self.url_part.as_str());
        let sub = join_slash(dir.as_str(), cand);
        proof {
            reveal_strlit("");
        }
        join_slash(sub.as_str(), "")
    }

    /// The top-level entries of a listing, given the text of its links.
    pub fn top_level_candidates(&self, listing: &Vec<String>) -> (r: Vec<String>)
        ensures
            r.deep_view() == top_level_seq(listing.deep_view(), self.filter_view()),
            r.deep_view().no_duplicates(),
    {
        let ghost raw = listing.deep_view();
        let mut out: Vec<String> = Vec::new();
        let mut i: usize = 0;
        while i < listing.len()
            invariant
                i <= listing.len(),
                raw == listing.deep_view(),
                out.deep_view() == top_level_seq(raw.subrange(0, i as int), self.filter_view()),
                out.deep_view().no_duplicates(),
            decreases listing.len() - i,
        {
            assert(raw.subrange(0, i + 1).drop_last() =~= raw.subrange(0, i as int));
            let name = trim_end_slashes(listing[i].as_str());
            if !parent_link(name.as_str()) && passes(name.as_str(), &self.filter) {
                push_unique(&mut out, name);
            }
            i = i + 1;
        }
        assert(raw.subrange(0, i as int) =~= raw);
        out
    }

    /// The top-level entries of the listing held by an HTML document.
    pub fn candidates_from_html(&self, html: &str) -> (r: Vec<String>)
        ensures
            r.deep_view() == top_level_seq(anchor_inner_html(html@), self.filter_view()),
    {
        let links = anchor_texts(html);
        self.top_level_candidates(&links)
    }

    /// The entries of the sub-listing of `cand`, given the text of its links.
    pub fn subdir_candidates(cand: &str, listing: &Vec<String>) -> (r: Vec<String>)
        ensures
            r.deep_view() == sub_seq(cand@, listing.deep_view()),
            r.deep_view().no_duplicates(),
    {
        let ghost raw = listing.deep_view();
        let mut out: Vec<String> = Vec::new();
        let mut i: usize = 0;
        while i < listing.len()
            invariant
                i <= listing.len(),
                raw == listing.deep_view(),
                out.deep_view() == sub_seq(cand@, raw.subrange(0, i as int)),
                out.deep_view().no_duplicates(),
            decreases listing.len() - i,
        {
            assert(raw.subrange(0, i + 1).drop_last() =~= raw.subrange(0, i as int));
            let name = trim_end_slashes(listing[i].as_str());
            if !parent_link(name.as_str()) {
                let entry = join_slash(cand, listing[i].as_str());
                push_unique(&mut out, entry);
            }
            i = i + 1;
        }
        assert(raw.subrange(0, i as int) =~= raw);
        out
    }

    /// The entries of the sub-listing of `cand` held by an HTML document.
    pub fn subdir_candidates_from_html(cand: &str, html: &str) -> (r: Vec<String>)
        ensures
            r.deep_view() == sub_seq(cand@, anchor_inner_html(html@)),
    {
        let links = anchor_texts(html);
        Self::subdir_candidates(cand, &links)
    }

    /// The union of the sub-listing entries of the top-level entries; `subs[i]` is the text
    /// of the links of the sub-listing of `tops[i]`.
    pub fn merge_subdirs(tops: &Vec<String>, subs: &Vec<Vec<String>>) -> (r: Vec<String>)
        requires
            tops.len() == subs.len(),
        ensures
            r.deep_view().to_set() == subdir_set(tops.deep_view(), subs.deep_view()),
            r.deep_view().no_duplicates(),
    {
        let ghost ts = tops.deep_view();
        let ghost ss = subs.deep_view();
        let mut out: Vec<String> = Vec::new();
        let mut i: usize = 0;
        assert(out.deep_view().to_set() =~= Set::empty());
        while i < tops.len()
            invariant
                i <= tops.len(),
                tops.len() == subs.len(),
                ts == tops.deep_view(),
                ss == subs.deep_view(),
                out.deep_view().to_set() == subdir_set(
                    ts.subrange(0, i as int),
                    ss.subrange(0, i as int),
                ),
                out.deep_view().no_duplicates(),
            decreases tops.len() - i,
        {
            let ghost before = out.deep_view().to_set();
            let part = Self::subdir_candidates(tops[i].as_str(), &subs[i]);
            let mut k: usize = 0;
            while k < part.len()
                invariant
                    k <= part.len(),
                    out.deep_view().to_set() == before.union(
                        part.deep_view().subrange(0, k as int).to_set(),
                    ),
                    out.deep_view().no_duplicates(),
                decreases part.len() - k,
            {
                let ghost pv = part.deep_view();
                let item = part[k].clone();
                push_unique(&mut out, item);
                assert(pv.subrange(0, k + 1) =~= pv.subrange(0, k as int).push(pv[k as int]));
                proof {
                    lemma_push_to_set(pv.subrange(0, k as int), pv[k as int]);
                }
                assert(out.deep_view().to_set() =~= before.union(
                    pv.subrange(0, k + 1).to_set(),
                ));
                k = k + 1;
            }
            assert(part.deep_view().subrange(0, k as int) =~= part.deep_view());
            assert(ts.subrange(0, i + 1).drop_last() =~= ts.subrange(0, i as int));
            assert(ss.subrange(0, i + 1).drop_last() =~= ss.subrange(0, i as int));
            assert(ss[i as int] == subs[i as int].deep_view());
            i = i + 1;
        }
        assert(ts.subrange(0, i as int) =~= ts);
        assert(ss.subrange(0, i as int) =~= ss);
        out
    }

    /// Takes `candidates` as the new snapshot and returns the entries that were not in the
    /// old one; nothing when there was no snapshot yet.
    pub fn compare_and_update(&mut self, candidates: &Vec<String>) -> (r: Vec<String>)
        requires
            old(self).wf(),
        ensures
            final(self).wf(),
            final(self).same_source(old(self)),
            final(self).snapshot() == candidates.deep_view().to_set(),
            r.deep_view().to_set() == poll_delta(
                old(self).snapshot(),
                candidates.deep_view().to_set(),
            ),
            r.deep_view().no_duplicates(),
    {
        let ghost cs = candidates.deep_view();
        let ghost snap = self.snapshot();
        let was_empty = self.data.len() == 0;
        proof {
            if !was_empty {
                assert(snap.contains(self.data.deep_view()[0]));
            } else {
                assert(snap =~= Set::empty());
            }
        }
        let mut fresh: Vec<String> = Vec::new();
        let mut delta: Vec<String> = Vec::new();
        let mut i: usize = 0;
        assert(fresh.deep_view().to_set() =~= cs.subrange(0, 0).to_set());
        assert(delta.deep_view().to_set() =~= Set::empty());
        while i < candidates.len()
            invariant
                i <= candidates.len(),
                cs == candidates.deep_view(),
                *self == *old(self),
                snap == self.snapshot(),
                was_empty == snap.is_empty(),
                fresh.deep_view().to_set() == cs.subrange(0, i as int).to_set(),
                fresh.deep_view().no_duplicates(),
                delta.deep_view().to_set() == if was_empty {
                    Set::empty()
                } else {
                    cs.subrange(0, i as int).to_set().difference(snap)
                },
                delta.deep_view().no_duplicates(),
            decreases candidates.len() - i,
        {
            let c = &candidates[i];
            assert(cs.subrange(0, i + 1) =~= cs.subrange(0, i as int).push(c@));
            proof {
                lemma_push_to_set(cs.subrange(0, i as int), c@);
            }
            push_unique(&mut fresh, c.clone());
            assert(fresh.deep_view().to_set() =~= cs.subrange(0, i + 1).to_set());
            if !was_empty && !vec_contains(&self.data, c.as_str()) {
                push_unique(&mut delta, c.clone());
            }
            assert(delta.deep_view().to_set() =~= if was_empty {
                Set::empty()
            } else {
                cs.subrange(0, i + 1).to_set().difference(snap)
            });
            i = i + 1;
        }
        assert(cs.subrange(0, i as int) =~= cs);
        self.data = fresh;
        delta
    }

    /// One poll, given the text of the links of the top-level listing and, when the source
    /// recurses, of the sub-listing of each top-level entry, in the order of
    /// `top_level_candidates`. Returns the new entries and takes what was seen as the
    /// snapshot. Fails, changing nothing, when the sub-listings do not line up with the
    /// top-level entries.
    pub fn poll(&mut self, listing: &Vec<String>, sub_listings: &Vec<Vec<String>>) -> (r: Result<
        Vec<String>,
        PollError,
    >)
        requires
            old(self).wf(),
        ensures
            final(self).wf(),
            final(self).same_source(old(self)),
            r is Err <==> (old(self).query_subdirs && sub_listings.len() != top_level_seq(
                listing.deep_view(),
                old(self).filter_view(),
            ).len()),
            r is Err ==> final(self).snapshot() == old(self).snapshot(),
            r is Ok ==> final(self).snapshot() == poll_candidates(
                listing.deep_view(),
                old(self).filter_view(),
                old(self).query_subdirs,
                sub_listings.deep_view(),
            ),
            r is Ok ==> r->Ok_0.deep_view().to_set() == poll_delta(
                old(self).snapshot(),
                final(self).snapshot(),
            ),
            r is Ok ==> r->Ok_0.deep_view().no_duplicates(),
    {
        let tops = self.top_level_candidates(listing);
        if self.query_subdirs {
            if sub_listings.len() != tops.len() {
                return Err(PollError::SubListingMismatch);
            }
            let candidates = Self::merge_subdirs(&tops, sub_listings);
            Ok(self.compare_and_update(&candidates))
        } else {
            Ok(self.compare_and_update(&tops))
        }
    }

    /// One poll, given the HTML of the top-level listing and, when the source recurses, of
    /// the sub-listing of each entry of `candidates_from_html`, in that order.
    pub fn poll_html(&mut self, html: &str, sub_htmls: &Vec<String>) -> (r: Result<
        Vec<String>,
        PollError,
    >)
        requires
            old(self).wf(),
        ensures
            final(self).wf(),
            final(self).same_source(old(self)),
            r is Err <==> (old(self).query_subdirs && sub_htmls.len() != top_level_seq(
                anchor_inner_html(html@),
                old(self).filter_view(),
            ).len()),
            r is Err ==> final(self).snapshot() == old(self).snapshot(),
            r is Ok ==> final(self).snapshot() == poll_candidates(
                anchor_inner_html(html@),
                old(self).filter_view(),
                old(self).query_subdirs,
                Seq::new(sub_htmls.len() as nat, |i: int| anchor_inner_html(sub_htmls[i]@)),
            ),
            r is Ok ==> r->Ok_0.deep_view().to_set() == poll_delta(
                old(self).snapshot(),
                final(self).snapshot(),
            ),
            r is Ok ==> r->Ok_0.deep_view().no_duplicates(),
    {
        let listing = anchor_texts(html);
        let mut subs: Vec<Vec<String>> = Vec::new();
        let mut i: usize = 0;
        while i < sub_htmls.len()
            invariant
                i <= sub_htmls.len(),
                subs.deep_view() == Seq::new(i as nat, |k: int| anchor_inner_html(sub_htmls[k]@)),
            decreases sub_htmls.len() - i,
        {
            let links = anchor_texts(sub_htmls[i].as_str());
            let ghost prev = subs.deep_view();
            subs.push(links);
            assert(subs.deep_view() =~= prev.push(anchor_inner_html(sub_htmls[i as int]@)));
            assert(subs.deep_view() =~= Seq::new(
                (i + 1) as nat,
                |k: int| anchor_inner_html(sub_htmls[k]@),
            ));
            i = i + 1;
        }
        self.poll(&listing, &subs)
    }
}

} // verus!
