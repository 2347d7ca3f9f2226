//! Recommendation logic: the strategy an algorithm request runs, the scores
//! and reasons of each kind of recommendation, the merge that removes
//! duplicate articles and ranks by score, and the preference tallies that
//! rank tags, authors and similar users by how often they occur.
//!
//! Scores are kept in tenths of a point, so that every score the service
//! gives (including `clap_count * 0.1`) is an integer.

use vstd::prelude::*;
use vstd::string::*;
use crate::text::{append_decimal_u64, decimal, owned, push_str, str_equal};
use crate::response::AppError;

verus! {

broadcast use vstd::string::group_string_axioms;

/// A value with an integer rank, ordered by decreasing rank.
pub trait Ranked {
    spec fn rank(&self) -> int;

    fn rank_exec(&self) -> (r: i128)
        ensures
            r as int == self.rank(),
    ;
}

/// `a` (at input position `pa`) comes before `b` (at `pb`) in a stable
/// ordering by decreasing rank.
pub open spec fn ranks_before<T: Ranked>(a: T, b: T, pa: int, pb: int) -> bool {
    a.rank() > b.rank() || (a.rank() == b.rank() && pa < pb)
}

/// `out` is `input` rearranged by the permutation `perm` (`out[k]` is
/// `input[perm[k]]`) into decreasing rank, equal ranks keeping their input
/// order.
pub open spec fn is_stable_desc_arrangement<T: Ranked>(
    input: Seq<T>,
    out: Seq<T>,
    perm: Seq<int>,
) -> bool {
    &&& perm.len() == input.len()
    &&& out.len() == input.len()
    &&& forall|k: int| 0 <= k < out.len() ==> 0 <= #[trigger] perm[k] < input.len()
    &&& forall|k: int| 0 <= k < out.len() ==> #[trigger] out[k] == input[perm[k]]
    &&& forall|k1: int, k2: int| 0 <= k1 < k2 < out.len() ==> perm[k1] != perm[k2]
    &&& forall|k1: int, k2: int|
        0 <= k1 < k2 < out.len() ==> ranks_before(out[k1], out[k2], perm[k1], perm[k2])
}

/// `out` is the stable sort of `input` by decreasing rank.
pub open spec fn is_stable_sort_desc<T: Ranked>(input: Seq<T>, out: Seq<T>) -> bool {
    exists|perm: Seq<int>| is_stable_desc_arrangement(input, out, perm)
}

/// Sorts `v` by decreasing rank, keeping equal ranks in their order
/// (`sort_by` with a descending comparison, which is stable).
pub fn sort_desc_stable<T: Ranked>(v: &mut Vec<T>)
    ensures
        is_stable_sort_desc(old(v)@, final(v)@),
{
    let ghost input = v@;
    let n = v.len();
    let ghost mut perm: Seq<int> = Seq::new(n as nat, |k: int| k);
    let mut i: usize = 0;
    while i < n
        invariant
            n == input.len(),
            v@.len() == n,
            perm.len() == n,
            i <= n,
            forall|k: int| 0 <= k < n ==> 0 <= #[trigger] perm[k] < n,
            forall|k: int| 0 <= k < n ==> #[trigger] v@[k] == input[perm[k]],
            forall|k: int| i <= k < n ==> #[trigger] perm[k] == k,
            forall|k: int| 0 <= k < i ==> #[trigger] perm[k] < i,
            forall|k1: int, k2: int| 0 <= k1 < k2 < n ==> perm[k1] != perm[k2],
            forall|k1: int, k2: int|
                0 <= k1 < k2 < i ==> ranks_before(v@[k1], v@[k2], perm[k1], perm[k2]),
        decreases n - i,
    {
        let ghost before = v@;
        let x = v.remove(i);
        let xr = x.rank_exec();
        let mut j: usize = 0;
        while j < i && v[j].rank_exec() >= xr
            invariant
                j <= i < n,
                before.len() == n,
                v@ == before.remove(i as int),
                forall|k: int| 0 <= k < j ==> #[trigger] v@[k].rank() >= xr,
            decreases i - j,
        {
            j = j + 1;
        }
        proof {
            assert forall|k: int| j <= k < i implies #[trigger] before[k].rank() < xr by {
                assert(before[j as int].rank() < xr) by {
                    assert(v@[j as int] == before[j as int]);
                }
                if k > j {
                    assert(ranks_before(before[j as int], before[k], perm[j as int], perm[k]));
                }
            }
        }
        v.insert(j, x);
        proof {
            let old_perm = perm;
            let new_perm = old_perm.take(j as int) + seq![i as int] + old_perm.subrange(
                j as int,
                i as int,
            ) + old_perm.skip(i + 1);
            assert(new_perm.len() == n);
            assert forall|k: int| 0 <= k < n implies #[trigger] new_perm[k] == if k < j {
                old_perm[k]
            } else if k == j {
                i as int
            } else if k <= i {
                old_perm[k - 1]
            } else {
                old_perm[k]
            } by {}
            assert forall|k: int| 0 <= k < n implies #[trigger] v@[k] == if k < j {
                before[k]
            } else if k == j {
                x
            } else if k <= i {
                before[k - 1]
            } else {
                before[k]
            } by {}
            assert(x == input[i as int]);
            assert forall|k: int| 0 <= k < n implies #[trigger] v@[k] == input[new_perm[k]] by {}
            assert forall|k: int| 0 <= k < n implies 0 <= #[trigger] new_perm[k] < n by {}
            assert forall|k: int| i + 1 <= k < n implies #[trigger] new_perm[k] == k by {}
            assert forall|k: int| 0 <= k < i + 1 implies #[trigger] new_perm[k] < i + 1 by {}
            assert forall|k1: int, k2: int| 0 <= k1 < k2 < n implies new_perm[k1]
                != new_perm[k2] by {
                if k1 == j && k2 > i {
                    assert(old_perm[k2] == k2);
                } else if k2 == j {
                    assert(old_perm[k1] < i);
                } else if k1 == j {
                    assert(old_perm[k2 - 1] < i);
                }
            }
            assert forall|k1: int, k2: int| 0 <= k1 < k2 < i + 1 implies ranks_before(
                v@[k1],
                v@[k2],
                new_perm[k1],
                new_perm[k2],
            ) by {
                if k1 < j && k2 == j {
                    assert(before[k1].rank() >= xr) by {
                        assert(v@[k1] == before[k1]);
                    }
                    assert(old_perm[k1] < i);
                } else if k1 == j {
                    assert(before[k2 - 1].rank() < xr);
                } else if k1 < j && k2 > j {
                    assert(ranks_before(before[k1], before[k2 - 1], old_perm[k1], old_perm[k2 - 1]));
                } else if k1 > j {
                    assert(ranks_before(
                        before[k1 - 1],
                        before[k2 - 1],
                        old_perm[k1 - 1],
                        old_perm[k2 - 1],
                    ));
                } else {
                    assert(ranks_before(before[k1], before[k2], old_perm[k1], old_perm[k2]));
                }
            }
            perm = new_perm;
        }
        i = i + 1;
    }
    assert(is_stable_desc_arrangement(input, v@, perm));
}

/// An article recommended to a reader.
#[derive(Debug)]
pub struct RecommendedArticle<A> {
    /// The article as listed.
    pub article: A,
    /// The article's id, by which duplicates are recognised.
    pub article_id: String,
    /// The score, in tenths of a point.
    pub score: i128,
    /// Why the article is recommended.
    pub reason: String,
}

impl<A> Ranked for RecommendedArticle<A> {
    open spec fn rank(&self) -> int {
        self.score as int
    }

    fn rank_exec(&self) -> (r: i128) {
        self.score
    }
}

/// The ids of a list of recommendations.
pub open spec fn rec_ids<A>(s: Seq<RecommendedArticle<A>>) -> Seq<Seq<char>> {
    s.map_values(|r: RecommendedArticle<A>| r.article_id@)
}

/// The recommendations of `s` whose article id has not occurred before, in
/// their order.
pub open spec fn first_occurrences<A>(s: Seq<RecommendedArticle<A>>) -> Seq<RecommendedArticle<A>>
    decreases s.len(),
{
    if s.len() == 0 {
        Seq::empty()
    } else {
        let d = first_occurrences(s.drop_last());
        if rec_ids(d).contains(s.last().article_id@) {
            d
        } else {
            d.push(s.last())
        }
    }
}

fn has_article_id<A>(recs: &Vec<RecommendedArticle<A>>, id: &str) -> (r: bool)
    ensures
        r == rec_ids(recs@).contains(id@),
{
    let mut i: usize = 0;
    while i < recs.len()
        invariant
            i <= recs@.len(),
            forall|k: int| 0 <= k < i ==> recs@[k].article_id@ != id@,
        decreases recs@.len() - i,
    {
        if str_equal(recs[i].article_id.as_str(), id) {
            assert(rec_ids(recs@)[i as int] == id@);
            return true;
        }
        i = i + 1;
    }
    proof {
        if rec_ids(recs@).contains(id@) {
            let k = choose|k: int| 0 <= k < rec_ids(recs@).len() && rec_ids(recs@)[k] == id@;
            assert(recs@[k].article_id@ == id@);
        }
    }
    false
}

/// Keeps the first recommendation of each article, in order.
pub fn dedup_by_article<A>(recs: Vec<RecommendedArticle<A>>) -> (r: Vec<RecommendedArticle<A>>)
    ensures
        r@ == first_occurrences(recs@),
{
    let ghost input = recs@;
    let mut out: Vec<RecommendedArticle<A>> = Vec::new();
    let mut rest = recs;
    let ghost mut taken: int = 0;
    assert(input.take(0) =~= Seq::<RecommendedArticle<A>>::empty());
    while rest.len() > 0
        invariant
            0 <= taken <= input.len(),
            rest@ == input.skip(taken),
            out@ == first_occurrences(input.take(taken)),
        decreases rest@.len(),
    {
        let item = rest.remove(0);
        proof {
            let t = input.take(taken + 1);
            assert(t.drop_last() =~= input.take(taken));
            assert(t.last() == item);
            assert(rest@ =~= input.skip(taken + 1));
        }
        if !has_article_id(&out, item.article_id.as_str()) {
            out.push(item);
        }
        proof {
            taken = taken + 1;
        }
    }
    assert(input.take(taken) =~= input);
    out
}

/// The ranked recommendations: the first recommendation of each article,
/// sorted by decreasing score (equal scores in their order), at most
/// `limit` of them.
pub open spec fn is_ranking_of<A>(
    recs: Seq<RecommendedArticle<A>>,
    limit: usize,
    r: Seq<RecommendedArticle<A>>,
) -> bool {
    let d = first_occurrences(recs);
    &&& r.len() == if limit < d.len() {
        limit as int
    } else {
        d.len() as int
    }
    &&& exists|full: Seq<RecommendedArticle<A>>|
        is_stable_sort_desc(d, full) && r == #[trigger] full.take(r.len() as int)
}

/// The recommendation service's pure operations.
#[derive(Debug, Clone, Copy)]
pub struct RecommendationService;

impl RecommendationService {
    /// Removes duplicate articles (keeping the first), sorts by decreasing
    /// score and keeps at most `limit`.
    pub fn deduplicate_and_rank<A>(
        &self,
        recommendations: Vec<RecommendedArticle<A>>,
        limit: usize,
    ) -> (r: Result<Vec<RecommendedArticle<A>>, AppError>)
        ensures
            r matches Ok(v) && is_ranking_of(recommendations@, limit, v@),
    {
        let ghost input = recommendations@;
        let mut d = dedup_by_article(recommendations);
        let ghost deduped = d@;
        sort_desc_stable(&mut d);
        let ghost full = d@;
        d.truncate(limit);
        proof {
            assert(full.len() == deduped.len());
            assert(d@ =~= full.take(d@.len() as int));
        }
        Ok(d)
    }

    /// The hybrid merge: the content-based recommendations followed by the
    /// collaborative ones, ranked to at most `limit`.
    pub fn merge_and_rank<A>(
        &self,
        content: Vec<RecommendedArticle<A>>,
        collaborative: Vec<RecommendedArticle<A>>,
        limit: usize,
    ) -> (r: Result<Vec<RecommendedArticle<A>>, AppError>)
        ensures
            r matches Ok(v) && is_ranking_of(content@ + collaborative@, limit, v@),
    {
        let mut all = content;
        let mut more = collaborative;
        all.append(&mut more);
        self.deduplicate_and_rank(all, limit)
    }
}

/// The first occurrences have pairwise distinct article ids.
pub proof fn lemma_first_occurrences_distinct<A>(s: Seq<RecommendedArticle<A>>)
    ensures
        forall|i: int, j: int|
            0 <= i < j < first_occurrences(s).len() ==> first_occurrences(s)[i].article_id@
                != first_occurrences(s)[j].article_id@,
    decreases s.len(),
{
    if s.len() > 0 {
        lemma_first_occurrences_distinct(s.drop_last());
        let d = first_occurrences(s.drop_last());
        if !rec_ids(d).contains(s.last().article_id@) {
            assert forall|i: int| 0 <= i < d.len() implies d[i].article_id@
                != s.last().article_id@ by {
                assert(rec_ids(d)[i] == d[i].article_id@);
            }
        }
    }
}

/// Every first occurrence is an element of the sequence.
proof fn lemma_first_occurrences_subset<A>(s: Seq<RecommendedArticle<A>>)
    ensures
        forall|i: int| 0 <= i < first_occurrences(s).len() ==> s.contains(first_occurrences(s)[i]),
    decreases s.len(),
{
    if s.len() > 0 {
        lemma_first_occurrences_subset(s.drop_last());
        let d = first_occurrences(s.drop_last());
        assert forall|i: int| 0 <= i < first_occurrences(s).len() implies s.contains(
            first_occurrences(s)[i],
        ) by {
            if i < d.len() {
                let k = choose|k: int| 0 <= k < s.drop_last().len() && s.drop_last()[k] == d[i];
                assert(s[k] == d[i]);
            } else {
                assert(s[s.len() - 1] == s.last());
            }
        }
    }
}

/// Some position of `perm` holds `v`.
spec fn reaches(perm: Seq<int>, v: int) -> bool {
    exists|k: int| 0 <= k < perm.len() && #[trigger] perm[k] == v
}

/// An arrangement's index map reaches every input position.
proof fn lemma_perm_onto(perm: Seq<int>, n: int)
    requires
        n >= 0,
        perm.len() == n,
        forall|k: int| 0 <= k < n ==> 0 <= #[trigger] perm[k] < n,
        forall|k1: int, k2: int| 0 <= k1 < k2 < n ==> perm[k1] != perm[k2],
    ensures
        forall|v: int| 0 <= v < n ==> #[trigger] reaches(perm, v),
{
    let x = vstd::set_lib::set_int_range(0, n);
    let f = |k: int| perm[k];
    let y = x.map(f);
    vstd::set_lib::lemma_int_range(0, n);
    assert(vstd::relations::injective_on(f, x)) by {
        assert forall|k1: int, k2: int|
            x.contains(k1) && x.contains(k2) && #[trigger] f(k1) == #[trigger] f(k2) implies k1
            == k2 by {
            if k1 < k2 {
                assert(perm[k1] != perm[k2]);
            } else if k2 < k1 {
                assert(perm[k2] != perm[k1]);
            }
        }
    }
    vstd::set_lib::lemma_map_size(x, y, f);
    assert(y.subset_of(x)) by {
        assert forall|v: int| y.contains(v) implies x.contains(v) by {
            let k = choose|k: int| x.contains(k) && v == f(k);
            assert(0 <= perm[k] < n);
        }
    }
    vstd::set_lib::lemma_subset_equality(y, x);
    assert forall|v: int| 0 <= v < n implies #[trigger] reaches(perm, v) by {
        assert(x.contains(v));
        assert(y.contains(v));
        let k = choose|k: int| x.contains(k) && v == f(k);
        assert(perm[k] == v);
    }
}

/// Every article of the sequence has its first occurrence among the first
/// occurrences.
proof fn lemma_first_occurrences_cover<A>(s: Seq<RecommendedArticle<A>>)
    ensures
        forall|j: int| 0 <= j < s.len() ==> rec_ids(first_occurrences(s)).contains(#[trigger] s[j].article_id@),
    decreases s.len(),
{
    if s.len() > 0 {
        lemma_first_occurrences_cover(s.drop_last());
        let p = s.drop_last();
        let d = first_occurrences(p);
        let fo = first_occurrences(s);
        assert forall|j: int| 0 <= j < s.len() implies rec_ids(fo).contains(#[trigger] s[j].article_id@) by {
            if j < p.len() {
                assert(p[j] == s[j]);
                assert(rec_ids(d).contains(p[j].article_id@));
                let m = choose|m: int| 0 <= m < rec_ids(d).len() && rec_ids(d)[m] == p[j].article_id@;
                if rec_ids(d).contains(s.last().article_id@) {
                    assert(fo == d);
                } else {
                    assert(fo == d.push(s.last()));
                    assert(fo[m] == d[m]);
                    assert(rec_ids(fo)[m] == rec_ids(d)[m]);
                }
            } else {
                if rec_ids(d).contains(s.last().article_id@) {
                    assert(fo == d);
                } else {
                    assert(fo == d.push(s.last()));
                    assert(rec_ids(fo)[d.len() as int] == s.last().article_id@);
                }
            }
        }
    }
}

/// A ranking never lists an article twice, lists scores in decreasing order,
/// holds at most `limit` recommendations, recommends only candidates, and,
/// when the candidates name no more than `limit` articles, recommends every
/// one of them.
pub proof fn law_ranking_distinct_and_sorted<A>(
    recs: Seq<RecommendedArticle<A>>,
    limit: usize,
    r: Seq<RecommendedArticle<A>>,
)
    requires
        is_ranking_of(recs, limit, r),
    ensures
        forall|i: int, j: int| 0 <= i < j < r.len() ==> r[i].article_id@ != r[j].article_id@,
        forall|i: int, j: int| 0 <= i < j < r.len() ==> r[i].score >= r[j].score,
        r.len() <= limit,
        forall|i: int| 0 <= i < r.len() ==> recs.contains(r[i]),
        first_occurrences(recs).len() <= limit ==> forall|j: int|
            0 <= j < recs.len() ==> rec_ids(r).contains(#[trigger] recs[j].article_id@),
{
    let d = first_occurrences(recs);
    let full = choose|full: Seq<RecommendedArticle<A>>|
        is_stable_sort_desc(d, full) && r == #[trigger] full.take(r.len() as int);
    let perm = choose|perm: Seq<int>| is_stable_desc_arrangement(d, full, perm);
    lemma_first_occurrences_distinct(recs);
    assert forall|i: int, j: int| 0 <= i < j < r.len() implies r[i].article_id@
        != r[j].article_id@ by {
        assert(r[i] == full[i] && r[j] == full[j]);
        assert(full[i] == d[perm[i]] && full[j] == d[perm[j]]);
        assert(perm[i] != perm[j]);
    }
    assert forall|i: int, j: int| 0 <= i < j < r.len() implies r[i].score >= r[j].score by {
        assert(r[i] == full[i] && r[j] == full[j]);
        assert(ranks_before(full[i], full[j], perm[i], perm[j]));
    }
    lemma_first_occurrences_subset(recs);
    assert forall|i: int| 0 <= i < r.len() implies recs.contains(r[i]) by {
        assert(r[i] == full[i] && full[i] == d[perm[i]]);
    }
    if d.len() <= limit {
        lemma_first_occurrences_cover(recs);
        lemma_perm_onto(perm, d.len() as int);
        assert(r =~= full);
        assert forall|j: int| 0 <= j < recs.len() implies rec_ids(r).contains(
            #[trigger] recs[j].article_id@,
        ) by {
            let id = recs[j].article_id@;
            let m = choose|m: int| 0 <= m < rec_ids(d).len() && rec_ids(d)[m] == id;
            assert(reaches(perm, m));
            let k = choose|k: int| 0 <= k < perm.len() && #[trigger] perm[k] == m;
            assert(full[k] == d[perm[k]]);
            assert(rec_ids(r)[k] == r[k].article_id@);
        }
    }
}

/// A count of how often a key occurs, with the label of its first
/// occurrence.
#[derive(Debug)]
pub struct KeyCount {
    pub key: String,
    pub label: String,
    pub count: u64,
}

impl Ranked for KeyCount {
    open spec fn rank(&self) -> int {
        self.count as int
    }

    fn rank_exec(&self) -> (r: i128) {
        self.count as i128
    }
}

/// How many times `k` occurs in `s`.
pub open spec fn occurrences(s: Seq<Seq<char>>, k: Seq<char>) -> nat
    decreases s.len(),
{
    if s.len() == 0 {
        0
    } else {
        occurrences(s.drop_last(), k) + if s.last() == k {
            1nat
        } else {
            0nat
        }
    }
}

/// The distinct keys of `s`, in order of first occurrence.
pub open spec fn distinct_keys(s: Seq<Seq<char>>) -> Seq<Seq<char>>
    decreases s.len(),
{
    if s.len() == 0 {
        Seq::empty()
    } else {
        let d = distinct_keys(s.drop_last());
        if d.contains(s.last()) {
            d
        } else {
            d.push(s.last())
        }
    }
}

/// The label that goes with the first occurrence of `k` among the
/// (key, label) pairs `s`.
pub open spec fn first_label(s: Seq<(Seq<char>, Seq<char>)>, k: Seq<char>) -> Seq<char>
    decreases s.len(),
{
    if s.len() == 0 {
        Seq::empty()
    } else if s.drop_last().map_values(|e: (Seq<char>, Seq<char>)| e.0).contains(k) {
        first_label(s.drop_last(), k)
    } else if s.last().0 == k {
        s.last().1
    } else {
        Seq::empty()
    }
}

/// The texts of (key, label) pairs.
pub open spec fn pair_texts(v: Seq<(String, String)>) -> Seq<(Seq<char>, Seq<char>)> {
    v.map_values(|e: (String, String)| (e.0@, e.1@))
}

/// The keys of (key, label) pairs.
pub open spec fn pair_keys(v: Seq<(Seq<char>, Seq<char>)>) -> Seq<Seq<char>> {
    v.map_values(|e: (Seq<char>, Seq<char>)| e.0)
}

/// `t` tallies the pairs `s`: one entry per distinct key, in order of first
/// occurrence, with its number of occurrences and its first label.
pub open spec fn is_tally_of(s: Seq<(Seq<char>, Seq<char>)>, t: Seq<KeyCount>) -> bool {
    &&& t.len() == distinct_keys(pair_keys(s)).len()
    &&& forall|i: int|
        0 <= i < t.len() ==> {
            &&& #[trigger] t[i].key@ == distinct_keys(pair_keys(s))[i]
            &&& t[i].count == occurrences(pair_keys(s), t[i].key@)
            &&& t[i].label@ == first_label(s, t[i].key@)
        }
}

fn find_key(t: &Vec<KeyCount>, key: &str) -> (r: Option<usize>)
    ensures
        r matches Some(i) ==> i < t@.len() && t@[i as int].key@ == key@,
        r is None ==> forall|i: int| 0 <= i < t@.len() ==> t@[i].key@ != key@,
{
    let mut i: usize = 0;
    while i < t.len()
        invariant
            i <= t@.len(),
            forall|k: int| 0 <= k < i ==> t@[k].key@ != key@,
        decreases t@.len() - i,
    {
        if str_equal(t[i].key.as_str(), key) {
            return Some(i);
        }
        i = i + 1;
    }
    None
}

proof fn lemma_distinct_keys_contains(s: Seq<Seq<char>>, k: Seq<char>)
    ensures
        distinct_keys(s).contains(k) <==> s.contains(k),
        occurrences(s, k) == 0 <==> !s.contains(k),
    decreases s.len(),
{
    if s.len() > 0 {
        lemma_distinct_keys_contains(s.drop_last(), k);
        let p = s.drop_last();
        if s.last() == k {
            assert(s.contains(k)) by {
                assert(s[s.len() - 1] == k);
            }
        }
        if p.contains(k) {
            let j = choose|j: int| 0 <= j < p.len() && p[j] == k;
            assert(s[j] == k);
        }
        if s.contains(k) && s.last() != k {
            let j = choose|j: int| 0 <= j < s.len() && s[j] == k;
            assert(p[j] == k);
        }
        let d = distinct_keys(p);
        if !d.contains(s.last()) && d.push(s.last()).contains(k) {
            let j = choose|j: int| 0 <= j < d.push(s.last()).len() && d.push(s.last())[j] == k;
            if j < d.len() {
                assert(d[j] == k);
            }
        }
        if d.contains(k) && !d.contains(s.last()) {
            let j = choose|j: int| 0 <= j < d.len() && d[j] == k;
            assert(d.push(s.last())[j] == k);
        }
        if !d.contains(s.last()) && s.last() == k {
            assert(d.push(s.last())[d.len() as int] == k);
        }
    }
}

/// Tallies (key, label) pairs.
pub fn tally(pairs: &Vec<(String, String)>) -> (t: Vec<KeyCount>)
    ensures
        is_tally_of(pair_texts(pairs@), t@),
{
    let ghost s = pair_texts(pairs@);
    let mut t: Vec<KeyCount> = Vec::new();
    let mut i: usize = 0;
    assert(s.take(0) =~= Seq::<(Seq<char>, Seq<char>)>::empty());
    while i < pairs.len()
        invariant
            i <= pairs@.len(),
            s == pair_texts(pairs@),
            s.len() == pairs@.len(),
            is_tally_of(s.take(i as int), t@),
            forall|k: int| 0 <= k < t@.len() ==> #[trigger] t@[k].count <= i,
        decreases pairs@.len() - i,
    {
        let key = pairs[i].0.as_str();
        let ghost prefix = s.take(i as int);
        let ghost next = s.take(i + 1);
        proof {
            assert(next.drop_last() =~= prefix);
            assert(next.last() == s[i as int]);
            assert(s[i as int] == (pairs@[i as int].0@, pairs@[i as int].1@));
            assert(pair_keys(next).drop_last() =~= pair_keys(prefix));
            assert(pair_keys(next).last() == key@);
            assert(pair_keys(next.drop_last()) =~= pair_keys(prefix));
        }
        match find_key(&t, key) {
            Some(idx) => {
                let old_entry_count = t[idx].count;
                let entry = KeyCount {
                    key: t[idx].key.clone(),
                    label: t[idx].label.clone(),
                    count: old_entry_count + 1,
                };
                let ghost old_t = t@;
                t.set(idx, entry);
                proof {
                    let dk = distinct_keys(pair_keys(prefix));
                    assert(dk[idx as int] == key@);
                    assert(dk.contains(key@));
                    assert(distinct_keys(pair_keys(next)) == dk);
                    assert(pair_keys(prefix).contains(key@)) by {
                        lemma_distinct_keys_contains(pair_keys(prefix), key@);
                    }
                    assert forall|k: int| 0 <= k < t@.len() implies {
                        &&& #[trigger] t@[k].key@ == distinct_keys(pair_keys(next))[k]
                        &&& t@[k].count == occurrences(pair_keys(next), t@[k].key@)
                        &&& t@[k].label@ == first_label(next, t@[k].key@)
                    } by {
                        assert(pair_keys(next).drop_last() =~= pair_keys(prefix));
                        assert(next.drop_last().map_values(
                            |e: (Seq<char>, Seq<char>)| e.0,
                        ) =~= pair_keys(prefix));
                        if k != idx {
                            assert(old_t[k].key@ != key@) by {
                                assert(dk[k] == old_t[k].key@);
                                lemma_dk_distinct(pair_keys(prefix));
                            }
                            assert(pair_keys(prefix).contains(old_t[k].key@)) by {
                                lemma_distinct_keys_contains(pair_keys(prefix), old_t[k].key@);
                                assert(dk[k] == old_t[k].key@);
                            }
                        }
                    }
                }
            },
            None => {
                let entry = KeyCount { key: pairs[i].0.clone(), label: pairs[i].1.clone(), count: 1 };
                let ghost old_t = t@;
                t.push(entry);
                proof {
                    let dk = distinct_keys(pair_keys(prefix));
                    assert(!dk.contains(key@)) by {
                        if dk.contains(key@) {
                            let j = choose|j: int| 0 <= j < dk.len() && dk[j] == key@;
                            assert(old_t[j].key@ == key@);
                        }
                    }
                    assert(!pair_keys(prefix).contains(key@)) by {
                        lemma_distinct_keys_contains(pair_keys(prefix), key@);
                    }
                    assert(distinct_keys(pair_keys(next)) == dk.push(key@));
                    assert(occurrences(pair_keys(prefix), key@) == 0) by {
                        lemma_distinct_keys_contains(pair_keys(prefix), key@);
                    }
                    assert(next.drop_last().map_values(|e: (Seq<char>, Seq<char>)| e.0)
                        =~= pair_keys(prefix));
                    assert forall|k: int| 0 <= k < t@.len() implies {
                        &&& #[trigger] t@[k].key@ == distinct_keys(pair_keys(next))[k]
                        &&& t@[k].count == occurrences(pair_keys(next), t@[k].key@)
                        &&& t@[k].label@ == first_label(next, t@[k].key@)
                    } by {
                        assert(pair_keys(next).drop_last() =~= pair_keys(prefix));
                        if k < old_t.len() {
                            assert(old_t[k].key@ != key@) by {
                                assert(dk[k] == old_t[k].key@);
                            }
                            assert(pair_keys(prefix).contains(old_t[k].key@)) by {
                                lemma_distinct_keys_contains(pair_keys(prefix), old_t[k].key@);
                                assert(dk[k] == old_t[k].key@);
                            }
                        }
                    }
                }
            },
        }
        i = i + 1;
    }
    assert(s.take(pairs@.len() as int) =~= s);
    t
}

proof fn lemma_dk_distinct(s: Seq<Seq<char>>)
    ensures
        forall|i: int, j: int|
            0 <= i < j < distinct_keys(s).len() ==> distinct_keys(s)[i] != distinct_keys(s)[j],
    decreases s.len(),
{
    if s.len() > 0 {
        lemma_dk_distinct(s.drop_last());
        let d = distinct_keys(s.drop_last());
        if !d.contains(s.last()) {
            assert forall|i: int| 0 <= i < d.len() implies d[i] != s.last() by {
                if d[i] == s.last() {
                    assert(d.contains(s.last()));
                }
            }
        }
    }
}

/// The tally of `pairs`, sorted by decreasing count (ties in order of first
/// occurrence), at most `top` entries.
pub open spec fn is_top_counts(pairs: Seq<(Seq<char>, Seq<char>)>, top: usize, r: Seq<KeyCount>) -> bool {
    exists|t: Seq<KeyCount>, full: Seq<KeyCount>|
        #![trigger is_tally_of(pairs, t), full.take(capped(top as int, full.len() as int))]
        is_tally_of(pairs, t) && is_stable_sort_desc(t, full) && r == full.take(
            capped(top as int, full.len() as int),
        )
}

/// `limit` capped at `len`.
pub open spec fn capped(limit: int, len: int) -> int {
    if limit < len {
        limit
    } else {
        len
    }
}

/// Counts keys and keeps the `top` most frequent.
pub fn count_and_rank(pairs: &Vec<(String, String)>, top: usize) -> (r: Vec<KeyCount>)
    ensures
        is_top_counts(pair_texts(pairs@), top, r@),
{
    let mut t = tally(pairs);
    let ghost tallied = t@;
    sort_desc_stable(&mut t);
    let ghost full = t@;
    t.truncate(top);
    proof {
        assert(t@ =~= full.take(capped(top as int, full.len() as int)));
    }
    t
}

/// A tag that a reader likes, weighted by how many liked articles carry it.
#[derive(Debug)]
pub struct TagPreference {
    pub tag_id: String,
    pub tag_name: String,
    pub weight: u64,
}

/// An author that a reader likes, weighted by how many liked articles they
/// wrote.
#[derive(Debug)]
pub struct AuthorPreference {
    pub author_id: String,
    pub weight: u64,
}

/// The tag preferences from the (tag id, tag name) pairs of the articles a
/// reader clapped: the 20 most frequent tags.
pub fn rank_tag_preferences(tags: &Vec<(String, String)>) -> (r: Vec<TagPreference>)
    ensures
        exists|c: Seq<KeyCount>|
            is_top_counts(pair_texts(tags@), 20, c) && r@.len() == c.len() && forall|i: int|
                0 <= i < c.len() ==> (#[trigger] r@[i]).tag_id@ == c[i].key@ && r@[i].tag_name@
                    == c[i].label@ && r@[i].weight == c[i].count,
{
    let counts = count_and_rank(tags, 20);
    let mut out: Vec<TagPreference> = Vec::new();
    let mut i: usize = 0;
    while i < counts.len()
        invariant
            i <= counts@.len(),
            out@.len() == i,
            forall|k: int|
                0 <= k < i ==> (#[trigger] out@[k]).tag_id@ == counts@[k].key@
                    && out@[k].tag_name@ == counts@[k].label@ && out@[k].weight
                    == counts@[k].count,
        decreases counts@.len() - i,
    {
        out.push(
            TagPreference {
                tag_id: counts[i].key.clone(),
                tag_name: counts[i].label.clone(),
                weight: counts[i].count,
            },
        );
        i = i + 1;
    }
    out
}

/// (id, id) pairs for keys without a label.
fn self_labelled(ids: &Vec<String>) -> (r: Vec<(String, String)>)
    ensures
        r@.len() == ids@.len(),
        forall|i: int| 0 <= i < ids@.len() ==> (#[trigger] r@[i]).0@ == ids@[i]@ && r@[i].1@
            == ids@[i]@,
{
    let mut r: Vec<(String, String)> = Vec::new();
    let mut i: usize = 0;
    while i < ids.len()
        invariant
            i <= ids@.len(),
            r@.len() == i,
            forall|k: int| 0 <= k < i ==> (#[trigger] r@[k]).0@ == ids@[k]@ && r@[k].1@
                == ids@[k]@,
        decreases ids@.len() - i,
    {
        r.push((ids[i].clone(), ids[i].clone()));
        i = i + 1;
    }
    r
}

/// The (id, id) pairs of a list of ids.
pub open spec fn self_pairs(ids: Seq<String>) -> Seq<(Seq<char>, Seq<char>)> {
    ids.map_values(|s: String| (s@, s@))
}

/// The author preferences from the author ids of the articles a reader
/// clapped: the 10 most frequent authors.
pub fn rank_author_preferences(author_ids: &Vec<String>) -> (r: Vec<AuthorPreference>)
    ensures
        exists|c: Seq<KeyCount>|
            is_top_counts(self_pairs(author_ids@), 10, c) && r@.len() == c.len() && forall|i: int|
                0 <= i < c.len() ==> (#[trigger] r@[i]).author_id@ == c[i].key@ && r@[i].weight
                    == c[i].count,
{
    let pairs = self_labelled(author_ids);
    assert(pair_texts(pairs@) =~= self_pairs(author_ids@));
    let counts = count_and_rank(&pairs, 10);
    let mut out: Vec<AuthorPreference> = Vec::new();
    let mut i: usize = 0;
    while i < counts.len()
        invariant
            i <= counts@.len(),
            out@.len() == i,
            forall|k: int|
                0 <= k < i ==> (#[trigger] out@[k]).author_id@ == counts@[k].key@
                    && out@[k].weight == counts@[k].count,
        decreases counts@.len() - i,
    {
        out.push(AuthorPreference { author_id: counts[i].key.clone(), weight: counts[i].count });
        i = i + 1;
    }
    out
}

/// The similar readers from the ids of the other readers who clapped the
/// same articles (one id per shared clap): the 10 with most shared claps.
pub fn rank_similar_users(user_ids: &Vec<String>) -> (r: Vec<String>)
    ensures
        exists|c: Seq<KeyCount>|
            is_top_counts(self_pairs(user_ids@), 10, c) && r@.len() == c.len() && forall|i: int|
                0 <= i < c.len() ==> (#[trigger] r@[i])@ == c[i].key@,
{
    let pairs = self_labelled(user_ids);
    assert(pair_texts(pairs@) =~= self_pairs(user_ids@));
    let counts = count_and_rank(&pairs, 10);
    let mut out: Vec<String> = Vec::new();
    let mut i: usize = 0;
    while i < counts.len()
        invariant
            i <= counts@.len(),
            out@.len() == i,
            forall|k: int| 0 <= k < i ==> (#[trigger] out@[k])@ == counts@[k].key@,
        decreases counts@.len() - i,
    {
        out.push(counts[i].key.clone());
        i = i + 1;
    }
    out
}

/// A recommendation algorithm that a request may ask for.
#[derive(Debug, Clone, Copy, PartialEq, Eq, Structural)]
pub enum RecommendationAlgorithm {
    ContentBased,
    CollaborativeFiltering,
    Hybrid,
    Trending,
    Following,
}

/// The name of an algorithm (its `Debug` text).
pub open spec fn algorithm_name(a: RecommendationAlgorithm) -> Seq<char> {
    match a {
        RecommendationAlgorithm::ContentBased => "ContentBased"@,
        RecommendationAlgorithm::CollaborativeFiltering => "CollaborativeFiltering"@,
        RecommendationAlgorithm::Hybrid => "Hybrid"@,
        RecommendationAlgorithm::Trending => "Trending"@,
        RecommendationAlgorithm::Following => "Following"@,
    }
}

/// The name of an algorithm.
pub fn algorithm_label(a: RecommendationAlgorithm) -> (r: String)
    ensures
        r@ == algorithm_name(a),
{
    match a {
        RecommendationAlgorithm::ContentBased => owned("ContentBased"),
        RecommendationAlgorithm::CollaborativeFiltering => owned("CollaborativeFiltering"),
        RecommendationAlgorithm::Hybrid => owned("Hybrid"),
        RecommendationAlgorithm::Trending => owned("Trending"),
        RecommendationAlgorithm::Following => owned("Following"),
    }
}

/// The strategy that a recommendation request runs.
#[derive(Debug, Clone, Copy, PartialEq, Eq, Structural)]
pub enum Strategy {
    /// Tag and author preferences of the reader.
    ContentBased,
    /// Articles liked by similar readers.
    CollaborativeFiltering,
    /// Content-based and collaborative, each for half the limit, merged.
    Hybrid,
    /// Popular recent articles.
    Trending,
    /// Articles by followed authors.
    Following,
}

/// What a recommendation request does.
#[derive(Debug)]
pub struct RecommendationPlan {
    pub strategy: Strategy,
    /// How many recommendations to return.
    pub limit: usize,
    /// The name of the requested algorithm, reported with the result.
    pub algorithm_used: String,
}

/// The strategy for an algorithm: every strategy but `Following` falls back
/// to trending articles for an anonymous reader.
pub open spec fn strategy_for(a: RecommendationAlgorithm, has_user: bool) -> Strategy {
    match a {
        RecommendationAlgorithm::Trending => Strategy::Trending,
        RecommendationAlgorithm::Following => Strategy::Following,
        RecommendationAlgorithm::ContentBased => if has_user {
            Strategy::ContentBased
        } else {
            Strategy::Trending
        },
        RecommendationAlgorithm::CollaborativeFiltering => if has_user {
            Strategy::CollaborativeFiltering
        } else {
            Strategy::Trending
        },
        RecommendationAlgorithm::Hybrid => if has_user {
            Strategy::Hybrid
        } else {
            Strategy::Trending
        },
    }
}

/// Plans a recommendation request: the algorithm defaults to `Hybrid`, the
/// limit to 10; following recommendations need a reader.
pub fn plan_recommendations(
    algorithm: Option<RecommendationAlgorithm>,
    has_user: bool,
    limit: Option<usize>,
) -> (r: Result<RecommendationPlan, AppError>)
    ensures
        ({
            let a = match algorithm {
                Some(a) => a,
                None => RecommendationAlgorithm::Hybrid,
            };
            &&& (a == RecommendationAlgorithm::Following && !has_user) ==> (r matches Err(
                AppError::Authentication(m),
            ) && m@ == "User ID required for following recommendations"@)
            &&& !(a == RecommendationAlgorithm::Following && !has_user) ==> (r matches Ok(p)
                && p.strategy == strategy_for(a, has_user) && p.limit == match limit {
                Some(l) => l,
                None => 10,
            } && p.algorithm_used@ == algorithm_name(a))
        }),
        has_user && algorithm == Some(RecommendationAlgorithm::ContentBased) ==> (r matches Ok(p)
            && p.strategy == Strategy::ContentBased),
        has_user && algorithm == Some(RecommendationAlgorithm::CollaborativeFiltering) ==> (r matches Ok(
            p,
        ) && p.strategy == Strategy::CollaborativeFiltering),
        has_user && (algorithm == Some(RecommendationAlgorithm::Hybrid) || algorithm is None) ==> (r matches Ok(
            p,
        ) && p.strategy == Strategy::Hybrid),
        algorithm == Some(RecommendationAlgorithm::Trending) ==> (r matches Ok(p) && p.strategy
            == Strategy::Trending),
        has_user && algorithm == Some(RecommendationAlgorithm::Following) ==> (r matches Ok(p)
            && p.strategy == Strategy::Following),
        !has_user && algorithm != Some(RecommendationAlgorithm::Following) ==> (r matches Ok(p)
            && p.strategy == Strategy::Trending),
{
    let a = match algorithm {
        Some(a) => a,
        None => RecommendationAlgorithm::Hybrid,
    };
    let lim = match limit {
        Some(l) => l,
        None => 10,
    };
    let strategy = match a {
        RecommendationAlgorithm::Trending => Strategy::Trending,
        RecommendationAlgorithm::Following => {
            if !has_user {
                return Err(
                    AppError::Authentication(
                        owned("User ID required for following recommendations"),
                    ),
                );
            }
            Strategy::Following
        },
        RecommendationAlgorithm::ContentBased => if has_user {
            Strategy::ContentBased
        } else {
            Strategy::Trending
        },
        RecommendationAlgorithm::CollaborativeFiltering => if has_user {
            Strategy::CollaborativeFiltering
        } else {
            Strategy::Trending
        },
        RecommendationAlgorithm::Hybrid => if has_user {
            Strategy::Hybrid
        } else {
            Strategy::Trending
        },
    };
    Ok(RecommendationPlan { strategy, limit: lim, algorithm_used: algorithm_label(a) })
}

/// The limit each half of a hybrid or preference-based recommendation uses.
pub fn half_limit(limit: usize) -> (r: usize)
    ensures
        r == limit / 2,
{
    limit / 2
}

/// Which preference-based recommendations a reader gets: by tags when the
/// reader has tag preferences, by authors when the reader has author
/// preferences, each for half the limit.
#[derive(Debug)]
pub struct PreferencePlan {
    pub tag_limit: Option<usize>,
    pub author_limit: Option<usize>,
}

pub fn plan_preference_recommendations(has_tags: bool, has_authors: bool, limit: usize) -> (r:
    PreferencePlan)
    ensures
        r.tag_limit == if has_tags {
            Some(limit / 2)
        } else {
            None::<usize>
        },
        r.author_limit == if has_authors {
            Some(limit / 2)
        } else {
            None::<usize>
        },
{
    PreferencePlan {
        tag_limit: if has_tags {
            Some(limit / 2)
        } else {
            None
        },
        author_limit: if has_authors {
            Some(limit / 2)
        } else {
            None
        },
    }
}

/// The trending score, in tenths: `clap * 0.3 + view * 0.1 + comment * 0.4
/// + bookmark * 0.2`.
pub open spec fn trending_score_spec(clap: int, view: int, comment: int, bookmark: int) -> int {
    3 * clap + view + 4 * comment + 2 * bookmark
}

impl<A> RecommendedArticle<A> {
    /// A popular recent article.
    pub fn trending(article: A, article_id: String, clap: i64, view: i64, comment: i64, bookmark: i64) -> (r: Self)
        ensures
            r.article == article,
            r.article_id == article_id,
            r.score == trending_score_spec(clap as int, view as int, comment as int, bookmark as int),
            r.score == 3 * clap + view + 4 * comment + 2 * bookmark,
            r.reason@ == "热门文章"@,
    {
        RecommendedArticle {
            article,
            article_id,
            score: 3 * (clap as i128) + (view as i128) + 4 * (comment as i128) + 2 * (bookmark as i128),
            reason: owned("热门文章"),
        }
    }

    /// An article by an author the reader follows: the highest score, 100.
    pub fn from_followed_author(article: A, article_id: String) -> (r: Self)
        ensures
            r.article == article,
            r.article_id == article_id,
            r.score == 1000,
            r.reason@ == "来自您关注的作者"@,
    {
        RecommendedArticle { article, article_id, score: 1000, reason: owned("来自您关注的作者") }
    }

    /// An article matching the reader's tags: score 80.
    pub fn by_tags(article: A, article_id: String) -> (r: Self)
        ensures
            r.article == article,
            r.article_id == article_id,
            r.score == 800,
            r.reason@ == "基于您的兴趣标签"@,
    {
        RecommendedArticle { article, article_id, score: 800, reason: owned("基于您的兴趣标签") }
    }

    /// An article by an author the reader likes: score 90.
    pub fn by_authors(article: A, article_id: String) -> (r: Self)
        ensures
            r.article == article,
            r.article_id == article_id,
            r.score == 900,
            r.reason@ == "来自您喜欢的作者"@,
    {
        RecommendedArticle { article, article_id, score: 900, reason: owned("来自您喜欢的作者") }
    }

    /// An article that similar readers clapped: `70 + popularity * 5`.
    pub fn by_similar_users(article: A, article_id: String, popularity: i64) -> (r: Self)
        ensures
            r.article == article,
            r.article_id == article_id,
            r.score == 700 + 50 * popularity,
            r.reason@ == "相似用户喜欢的文章"@,
    {
        RecommendedArticle {
            article,
            article_id,
            score: 700 + 50 * (popularity as i128),
            reason: owned("相似用户喜欢的文章"),
        }
    }

    /// An article sharing tags with another: `common_tags * 10 + clap_count
    /// * 0.1`.
    pub fn related(article: A, article_id: String, common_tags: i64, clap_count: i64) -> (r: Self)
        ensures
            r.article == article,
            r.article_id == article_id,
            r.score == 100 * common_tags + clap_count,
            r.reason@ == "相关主题"@,
    {
        RecommendedArticle {
            article,
            article_id,
            score: 100 * (common_tags as i128) + (clap_count as i128),
            reason: owned("相关主题"),
        }
    }
}

/// The condition that a trending query puts on tag `i`: `$tag_<i> IN tags`.
pub open spec fn tag_term(i: nat) -> Seq<char> {
    "$tag_"@ + decimal(i) + " IN tags"@
}

/// The conditions on `n` tags, joined by ` OR `.
pub open spec fn tag_terms(n: nat) -> Seq<char>
    decreases n,
{
    if n == 0 {
        Seq::empty()
    } else if n == 1 {
        tag_term(0)
    } else {
        tag_terms((n - 1) as nat) + " OR "@ + tag_term((n - 1) as nat)
    }
}

/// The filters that the trending query appends to its base selection: one
/// of the requested tags (when tags are requested), one of the requested
/// authors (when authors are), created at or after `since`, then the order
/// (trending score, then newest) and the limit.
pub open spec fn trending_filters_spec(tag_count: Option<usize>, has_authors: bool, since: Seq<char>) -> Seq<
    char,
> {
    (match tag_count {
        Some(n) => " AND ("@ + tag_terms(n as nat) + ")"@,
        None => Seq::empty(),
    }) + (if has_authors {
        " AND author_id IN $authors"@
    } else {
        Seq::empty()
    }) + " AND created_at >= d'"@ + since + "'"@
        + " ORDER BY trending_score DESC, created_at DESC LIMIT $limit"@
}

/// The name of the query parameter that carries tag `i`: `tag_<i>`.
pub fn tag_param_name(i: usize) -> (r: String)
    ensures
        r@ == "tag_"@ + decimal(i as nat),
{
    let mut out = owned("tag_");
    append_decimal_u64(&mut out, i as u64);
    out
}

/// The filters of a trending query (see `trending_filters_spec`).
pub fn trending_filters(tag_count: Option<usize>, has_authors: bool, since: &str) -> (r: String)
    ensures
        r@ == trending_filters_spec(tag_count, has_authors, since@),
{
    let mut out = String::new();
    if let Some(n) = tag_count {
        push_str(&mut out, " AND (");
        let ghost start = out@;
        let mut i: usize = 0;
        while i < n
            invariant
                i <= n,
                out@ == start + tag_terms(i as nat),
            decreases n - i,
        {
            if i > 0 {
                push_str(&mut out, " OR ");
            }
            push_str(&mut out, "$tag_");
            append_decimal_u64(&mut out, i as u64);
            push_str(&mut out, " IN tags");
            proof {
                let t = i as nat;
                if t == 0 {
                    assert(tag_terms(1) == tag_term(0));
                    assert(out@ =~= start + tag_terms(1));
                } else {
                    assert(tag_terms(t + 1) == tag_terms(t) + " OR "@ + tag_term(t));
                    assert(out@ =~= start + tag_terms(t + 1));
                }
            }
            i = i + 1;
        }
        push_str(&mut out, ")");
    }
    if has_authors {
        push_str(&mut out, " AND author_id IN $authors");
    }
    push_str(&mut out, " AND created_at >= d'");
    push_str(&mut out, since);
    push_str(&mut out, "'");
    push_str(&mut out, " ORDER BY trending_score DESC, created_at DESC LIMIT $limit");
    assert(out@ =~= trending_filters_spec(tag_count, has_authors, since@));
    out
}

/// Anonymous readers never need a reader-specific strategy: every
/// algorithm but `Following` is answered with trending articles.
pub proof fn law_anonymous_gets_trending(a: RecommendationAlgorithm)
    requires
        a != RecommendationAlgorithm::Following,
    ensures
        strategy_for(a, false) == Strategy::Trending,
{
}

/// A signed-in reader gets the strategy named by the algorithm asked for:
/// content-based, collaborative or hybrid recommendations, articles of
/// followed authors, or trending articles; only an anonymous reader is
/// answered with trending articles instead.
pub proof fn law_signed_in_reader_gets_requested_strategy()
    ensures
        strategy_for(RecommendationAlgorithm::ContentBased, true) == Strategy::ContentBased,
        strategy_for(RecommendationAlgorithm::CollaborativeFiltering, true)
            == Strategy::CollaborativeFiltering,
        strategy_for(RecommendationAlgorithm::Hybrid, true) == Strategy::Hybrid,
        strategy_for(RecommendationAlgorithm::Following, true) == Strategy::Following,
        strategy_for(RecommendationAlgorithm::Trending, true) == Strategy::Trending,
        strategy_for(RecommendationAlgorithm::Trending, false) == Strategy::Trending,
        forall|a: RecommendationAlgorithm|
            a != RecommendationAlgorithm::Following ==> #[trigger] strategy_for(a, false)
                == Strategy::Trending,
{
}

/// The trending score weighs each counter by a fixed amount, in tenths:
/// nothing for an article without activity, and each further clap adds 3,
/// view 1, comment 4 and bookmark 2, whatever the other counters.
pub proof fn law_trending_score_is_linear(clap: int, view: int, comment: int, bookmark: int)
    ensures
        trending_score_spec(0, 0, 0, 0) == 0,
        trending_score_spec(clap + 1, view, comment, bookmark) == trending_score_spec(
            clap,
            view,
            comment,
            bookmark,
        ) + 3,
        trending_score_spec(clap, view + 1, comment, bookmark) == trending_score_spec(
            clap,
            view,
            comment,
            bookmark,
        ) + 1,
        trending_score_spec(clap, view, comment + 1, bookmark) == trending_score_spec(
            clap,
            view,
            comment,
            bookmark,
        ) + 4,
        trending_score_spec(clap, view, comment, bookmark + 1) == trending_score_spec(
            clap,
            view,
            comment,
            bookmark,
        ) + 2,
        trending_score_spec(clap, view, comment, bookmark) == 3 * clap + view + 4 * comment + 2
            * bookmark,
{
}

/// The recency and order that end every trending query.
pub open spec fn trending_tail(since: Seq<char>) -> Seq<char> {
    " AND created_at >= d'"@ + since + "'"@
        + " ORDER BY trending_score DESC, created_at DESC LIMIT $limit"@
}

/// The author filter of a trending query is there exactly when authors are
/// requested, whatever the tags; the tag filter exactly when tags are; the
/// recency bound and the order always end the query.
pub proof fn law_trending_filters_parts(tag_count: Option<usize>, has_authors: bool, since: Seq<char>)
    ensures
        tag_count is None && has_authors ==> trending_filters_spec(tag_count, has_authors, since)
            == " AND author_id IN $authors"@ + trending_tail(since),
        tag_count is None && !has_authors ==> trending_filters_spec(tag_count, has_authors, since)
            == trending_tail(since),
        has_authors ==> (tag_count matches Some(n) ==> trending_filters_spec(
            tag_count,
            has_authors,
            since,
        ) == " AND ("@ + tag_terms(n as nat) + ")"@ + " AND author_id IN $authors"@
            + trending_tail(since)),
        !has_authors ==> (tag_count matches Some(n) ==> trending_filters_spec(
            tag_count,
            has_authors,
            since,
        ) == " AND ("@ + tag_terms(n as nat) + ")"@ + trending_tail(since)),
{
    let a: Seq<char> = if has_authors {
        " AND author_id IN $authors"@
    } else {
        Seq::empty()
    };
    let t: Seq<char> = match tag_count {
        Some(n) => " AND ("@ + tag_terms(n as nat) + ")"@,
        None => Seq::empty(),
    };
    assert(trending_filters_spec(tag_count, has_authors, since) =~= t + a + trending_tail(since));
}

/// The tag conditions: none for no tags, `$tag_0 IN tags` for one, and each
/// further tag adds ` OR $tag_<i> IN tags` with its position `i`.
pub proof fn law_tag_terms(n: nat)
    ensures
        tag_terms(0) == Seq::<char>::empty(),
        tag_terms(1) == "$tag_0 IN tags"@,
        n >= 1 ==> tag_terms(n + 1) == tag_terms(n) + " OR $tag_"@ + decimal(n) + " IN tags"@,
{
    reveal_strlit("$tag_");
    reveal_strlit(" IN tags");
    reveal_strlit("$tag_0 IN tags");
    reveal_strlit(" OR ");
    reveal_strlit(" OR $tag_");
    assert(decimal(0) == seq!['0']);
    assert(tag_term(0) =~= "$tag_0 IN tags"@);
    if n >= 1 {
        assert(tag_terms(n + 1) == tag_terms(n) + " OR "@ + tag_term(n));
        assert(tag_terms(n) + " OR "@ + tag_term(n) =~= tag_terms(n) + " OR $tag_"@ + decimal(n)
            + " IN tags"@);
    }
}

} // verus!
