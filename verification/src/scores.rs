use vstd::prelude::*;
use crate::selection::ListSelection;
use crate::text::{byte_len, string_byte_len, string_push};

verus! {

/// A saved result: a player's name and score.
#[derive(Clone, Debug)]
pub struct ScoreItem {
    pub score: u8,
    pub name: String,
}

impl ScoreItem {
    /// The result `score` of the player `name`.
    pub fn new(name: String, score: u8) -> (res: ScoreItem)
        ensures
            res.name == name,
            res.score == score,
    {
        ScoreItem { name, score }
    }
}

/// The results with score `k`, in their order in `s`.
pub open spec fn with_score(s: Seq<ScoreItem>, k: u8) -> Seq<ScoreItem>
    decreases s.len(),
{
    if s.len() == 0 {
        Seq::empty()
    } else if s.last().score == k {
        with_score(s.drop_last(), k).push(s.last())
    } else {
        with_score(s.drop_last(), k)
    }
}

/// Highest scores first.
pub open spec fn sorted_by_score(s: Seq<ScoreItem>) -> bool {
    forall|i: int, j: int| 0 <= i < j < s.len() ==> #[trigger] s[i].score >= #[trigger] s[j].score
}

/// `r` is `s` sorted by descending score, results with equal scores kept in
/// their order in `s` (a stable sort).
pub open spec fn stably_sorted_from(r: Seq<ScoreItem>, s: Seq<ScoreItem>) -> bool {
    &&& sorted_by_score(r)
    &&& forall|k: u8| #[trigger] with_score(r, k) == with_score(s, k)
}

/// Picking the results of one score commutes with concatenation.
pub proof fn lemma_with_score_append(a: Seq<ScoreItem>, b: Seq<ScoreItem>, k: u8)
    ensures
        with_score(a + b, k) == with_score(a, k) + with_score(b, k),
    decreases b.len(),
{
    if b.len() == 0 {
        assert(a + b == a);
    } else {
        assert((a + b).drop_last() == a + b.drop_last());
        lemma_with_score_append(a, b.drop_last(), k);
    }
}

/// No result of score `k` is picked from a sequence without one.
pub proof fn lemma_with_score_none(s: Seq<ScoreItem>, k: u8)
    requires
        forall|i: int| 0 <= i < s.len() ==> #[trigger] s[i].score != k,
    ensures
        with_score(s, k) == Seq::<ScoreItem>::empty(),
    decreases s.len(),
{
    if s.len() > 0 {
        lemma_with_score_none(s.drop_last(), k);
    }
}

/// Inserting `x` into a stable sort of `s` after every result that scores at
/// least as much as `x`, and before every result that scores less, gives a
/// stable sort of `s` followed by `x`.
proof fn lemma_insert_keeps_stable(a: Seq<ScoreItem>, s: Seq<ScoreItem>, x: ScoreItem, p: int)
    requires
        stably_sorted_from(a, s),
        0 <= p <= a.len(),
        forall|q: int| 0 <= q < p ==> #[trigger] a[q].score >= x.score,
        forall|q: int| p <= q < a.len() ==> #[trigger] a[q].score < x.score,
    ensures
        stably_sorted_from(a.insert(p, x), s.push(x)),
{
    let b = a.insert(p, x);
    let front = a.take(p);
    let back = a.skip(p);
    let one = seq![x];
    assert(b == front + one + back);
    assert(a == front + back);
    assert(s.push(x).drop_last() == s);
    assert(one.drop_last() == Seq::<ScoreItem>::empty());
    assert(one.len() == 1 && one.last() == x);
    assert forall|k: u8| #[trigger] with_score(b, k) == with_score(s.push(x), k) by {
        lemma_with_score_append(front + one, back, k);
        lemma_with_score_append(front, one, k);
        lemma_with_score_append(front, back, k);
        assert(with_score(a, k) == with_score(s, k));
        assert(with_score(Seq::<ScoreItem>::empty(), k) == Seq::<ScoreItem>::empty());
        if k == x.score {
            assert forall|i: int| 0 <= i < back.len() implies #[trigger] back[i].score != k by {
                assert(back[i] == a[p + i]);
            }
            lemma_with_score_none(back, k);
            assert(with_score(one, k) == Seq::<ScoreItem>::empty().push(x));
            assert(with_score(s.push(x), k) == with_score(s, k).push(x));
            assert(with_score(front, k) + Seq::<ScoreItem>::empty() == with_score(front, k));
            assert(with_score(front, k) + Seq::<ScoreItem>::empty().push(x) == with_score(front, k).push(x));
        } else {
            assert(with_score(one, k) == Seq::<ScoreItem>::empty());
            assert(with_score(s.push(x), k) == with_score(s, k));
            assert(with_score(front, k) + Seq::<ScoreItem>::empty() == with_score(front, k));
        }
    }
    assert forall|i: int, j: int| 0 <= i < j < b.len() implies #[trigger] b[i].score >= #[trigger] b[j].score by {
        if j < p {
            assert(b[i] == a[i]);
            assert(b[j] == a[j]);
        } else if j == p {
            assert(b[i] == a[i]);
        } else if i < p {
            assert(b[i] == a[i]);
            assert(b[j] == a[j - 1]);
        } else if i == p {
            assert(b[j] == a[j - 1]);
        } else {
            assert(b[i] == a[i - 1]);
            assert(b[j] == a[j - 1]);
        }
    }
}

/// The results of score `k`, when there is one, end with the last result of
/// that score.
proof fn lemma_with_score_last(s: Seq<ScoreItem>)
    requires
        s.len() > 0,
    ensures
        with_score(s, s.last().score).len() > 0,
        with_score(s, s.last().score).last() == s.last(),
{
}

/// A result picked by score comes from the sequence.
proof fn lemma_with_score_members(s: Seq<ScoreItem>, k: u8)
    ensures
        forall|i: int| 0 <= i < with_score(s, k).len() ==> {
            &&& #[trigger] with_score(s, k)[i].score == k
            &&& s.contains(with_score(s, k)[i])
        },
    decreases s.len(),
{
    if s.len() > 0 {
        lemma_with_score_members(s.drop_last(), k);
        let w = with_score(s.drop_last(), k);
        assert forall|i: int| 0 <= i < with_score(s, k).len() implies {
            &&& #[trigger] with_score(s, k)[i].score == k
            &&& s.contains(with_score(s, k)[i])
        } by {
            if i < w.len() {
                assert(with_score(s, k)[i] == w[i]);
                assert(w[i].score == k);
                assert(s.drop_last().contains(w[i]));
                let j = choose|j: int| 0 <= j < s.drop_last().len() && s.drop_last()[j] == w[i];
                assert(s.drop_last()[j] == s[j]);
                assert(s.contains(w[i]));
            } else {
                assert(s[s.len() - 1] == s.last());
            }
        }
    }
}

/// A sequence from which every score picks nothing is empty.
proof fn lemma_with_score_all_empty(s: Seq<ScoreItem>)
    requires
        forall|k: u8| #[trigger] with_score(s, k).len() == 0,
    ensures
        s.len() == 0,
{
    if s.len() > 0 {
        lemma_with_score_last(s);
        assert(with_score(s, s.last().score).len() == 0);
    }
}

/// The stable sort is unique: two sequences sorted by descending score that
/// hold the same results of each score, in the same order, are equal. So the
/// contract of `sort_scores` fixes its result.
pub proof fn lemma_stable_sort_unique(r: Seq<ScoreItem>, t: Seq<ScoreItem>)
    requires
        sorted_by_score(r),
        sorted_by_score(t),
        forall|k: u8| #[trigger] with_score(r, k) == with_score(t, k),
    ensures
        r == t,
    decreases r.len(),
{
    if r.len() == 0 {
        assert forall|k: u8| #[trigger] with_score(t, k).len() == 0 by {
            assert(with_score(r, k) == Seq::<ScoreItem>::empty());
        }
        lemma_with_score_all_empty(t);
        return;
    }
    if t.len() == 0 {
        assert forall|k: u8| #[trigger] with_score(r, k).len() == 0 by {
            assert(with_score(t, k) == Seq::<ScoreItem>::empty());
        }
        lemma_with_score_all_empty(r);
        return;
    }
    let m = r.last().score;
    let n = t.last().score;
    lemma_with_score_last(r);
    lemma_with_score_last(t);
    lemma_with_score_members(r, n);
    lemma_with_score_members(t, m);
    // r holds a result of score n and t one of score m, and both end on their lowest score
    let wr = with_score(r, n);
    assert(wr.len() > 0);
    assert(wr[0].score == n);
    let i = choose|i: int| 0 <= i < r.len() && r[i] == wr[0];
    if i < r.len() - 1 {
        assert(r[i].score >= r[r.len() - 1].score);
    }
    let wt = with_score(t, m);
    assert(wt.len() > 0);
    assert(wt[0].score == m);
    let j = choose|j: int| 0 <= j < t.len() && t[j] == wt[0];
    if j < t.len() - 1 {
        assert(t[j].score >= t[t.len() - 1].score);
    }
    assert(m == n);
    assert(r.last() == t.last());
    let r2 = r.drop_last();
    let t2 = t.drop_last();
    assert forall|k: u8| #[trigger] with_score(r2, k) == with_score(t2, k) by {
        if k == m {
            assert(with_score(r, k).drop_last() == with_score(r2, k));
            assert(with_score(t, k).drop_last() == with_score(t2, k));
        } else {
            assert(with_score(r, k) == with_score(r2, k));
            assert(with_score(t, k) == with_score(t2, k));
        }
    }
    assert forall|a: int, b: int| 0 <= a < b < r2.len() implies #[trigger] r2[a].score >= #[trigger] r2[b].score by {
        assert(r[a].score >= r[b].score);
    }
    assert forall|a: int, b: int| 0 <= a < b < t2.len() implies #[trigger] t2[a].score >= #[trigger] t2[b].score by {
        assert(t[a].score >= t[b].score);
    }
    lemma_stable_sort_unique(r2, t2);
    assert(r == r2.push(r.last()));
    assert(t == t2.push(t.last()));
}

/// Sorting a table that is already sorted changes nothing: the stable sort of
/// a sorted sequence is that sequence.
pub proof fn lemma_sorted_is_fixed(r: Seq<ScoreItem>, s: Seq<ScoreItem>)
    requires
        sorted_by_score(s),
        stably_sorted_from(r, s),
    ensures
        r == s,
{
    lemma_stable_sort_unique(r, s);
}

/// How often `x` occurs in `s` is how often it occurs among the results of its score.
proof fn lemma_count_by_score(s: Seq<ScoreItem>, x: ScoreItem)
    ensures
        s.to_multiset().count(x) == with_score(s, x.score).to_multiset().count(x),
    decreases s.len(),
{
    broadcast use vstd::seq_lib::group_to_multiset_ensures;
    if s.len() == 0 {
    } else {
        lemma_count_by_score(s.drop_last(), x);
        assert(s == s.drop_last().push(s.last()));
    }
}

/// Sorting keeps every result and adds none: the sorted table holds the same
/// results, as often, as the table sorted.
pub proof fn lemma_stable_sort_permutes(r: Seq<ScoreItem>, s: Seq<ScoreItem>)
    requires
        stably_sorted_from(r, s),
    ensures
        r.to_multiset() == s.to_multiset(),
{
    assert forall|x: ScoreItem| r.to_multiset().count(x) == s.to_multiset().count(x) by {
        lemma_count_by_score(r, x);
        lemma_count_by_score(s, x);
        assert(with_score(r, x.score) == with_score(s, x.score));
    }
    assert(r.to_multiset() =~= s.to_multiset());
}

/// A saved result is in the table afterwards: once saved, its name is taken.
pub proof fn lemma_saved_result_present(r: Seq<ScoreItem>, s: Seq<ScoreItem>, item: ScoreItem)
    requires
        stably_sorted_from(r, s.push(item)),
    ensures
        r.contains(item),
        exists|i: int| 0 <= i < r.len() && #[trigger] r[i].name@ == item.name@,
{
    lemma_with_score_last(s.push(item));
    assert(s.push(item).last() == item);
    let w = with_score(r, item.score);
    assert(w == with_score(s.push(item), item.score));
    lemma_with_score_members(r, item.score);
    assert(w[w.len() - 1] == item);
    assert(r.contains(item));
    let i = choose|i: int| 0 <= i < r.len() && r[i] == item;
    assert(r[i].name@ == item.name@);
}

/// Sorts `v` by descending score; results with equal scores keep their order.
fn sort_by_score_desc(v: &mut Vec<ScoreItem>)
    ensures
        stably_sorted_from(final(v)@, old(v)@),
{
    let ghost s = v@;
    let n = v.len();
    if n == 0 {
        assert forall|k: u8| #[trigger] with_score(v@, k) == with_score(s, k) by {}
        return;
    }
    assert(v@.take(1) == Seq::<ScoreItem>::empty().push(v@[0]));
    assert(s.take(1) == Seq::<ScoreItem>::empty().push(s[0]));
    let mut i: usize = 1;
    while i < n
        invariant
            1 <= i <= n,
            n == s.len(),
            v@.len() == n,
            stably_sorted_from(v@.take(i as int), s.take(i as int)),
            v@.skip(i as int) == s.skip(i as int),
        decreases n - i,
    {
        let ghost a = v@.take(i as int);
        assert(v@[i as int] == s[i as int]) by {
            assert(v@.skip(i as int)[0] == s.skip(i as int)[0]);
        }
        let ghost old_v = v@;
        let x = v.remove(i);
        assert(v@.take(i as int) == a);
        let mut p: usize = i;
        while p > 0 && v[p - 1].score < x.score
            invariant
                p <= i,
                i < n,
                v@.len() == n - 1,
                v@.take(i as int) == a,
                sorted_by_score(a),
                forall|q: int| p <= q < i ==> #[trigger] a[q].score < x.score,
            decreases p,
        {
            p = p - 1;
        }
        proof {
            if p > 0 {
                assert(a[p - 1].score >= x.score);
                assert forall|q: int| 0 <= q < p implies #[trigger] a[q].score >= x.score by {
                    if q < p - 1 {
                        assert(a[q].score >= a[p - 1].score);
                    }
                }
            }
            lemma_insert_keeps_stable(a, s.take(i as int), x, p as int);
        }
        let ghost before = v@;
        v.insert(p, x);
        assert(v@.take(i + 1) == a.insert(p as int, x));
        assert(s.take(i + 1) == s.take(i as int).push(x));
        assert forall|j: int| 0 <= j < n - (i + 1) implies #[trigger] v@.skip(i + 1)[j] == s.skip(i + 1)[j] by {
            assert(v@[i + 1 + j] == before[i + j]);
            assert(before[i + j] == old_v[i + 1 + j]);
            assert(old_v.skip(i as int)[j + 1] == s.skip(i as int)[j + 1]);
        }
        assert(v@.skip(i + 1) == s.skip(i + 1));
        i = i + 1;
    }
    assert(v@.take(n as int) == v@);
    assert(s.take(n as int) == s);
}

/// The saved results and the cursor of the results list.
pub struct ScoreList {
    pub scores: Vec<ScoreItem>,
    pub state: ListSelection,
}

impl ScoreList {
    /// A results list with one result per (name, score) pair, in order, nothing selected.
    pub fn from_iter(entries: Vec<(String, u8)>) -> (res: ScoreList)
        ensures
            res.scores@.len() == entries@.len(),
            forall|i: int| 0 <= i < entries@.len() ==> #[trigger] res.scores@[i]
                == (ScoreItem { name: entries@[i].0, score: entries@[i].1 }),
            res.state.selected is None,
            res.state.offset == 0,
    {
        let mut entries = entries;
        let ghost orig = entries@;
        let mut rev: Vec<ScoreItem> = Vec::new();
        while entries.len() > 0
            invariant
                entries@.len() + rev@.len() == orig.len(),
                entries@ == orig.take(entries@.len() as int),
                forall|i: int| 0 <= i < rev@.len() ==> #[trigger] rev@[i]
                    == (ScoreItem { name: orig[orig.len() - 1 - i].0, score: orig[orig.len() - 1 - i].1 }),
            decreases entries@.len(),
        {
            let (name, score) = entries.pop().unwrap();
            rev.push(ScoreItem::new(name, score));
        }
        let mut scores: Vec<ScoreItem> = Vec::new();
        while rev.len() > 0
            invariant
                rev@.len() + scores@.len() == orig.len(),
                forall|i: int| 0 <= i < rev@.len() ==> #[trigger] rev@[i]
                    == (ScoreItem { name: orig[orig.len() - 1 - i].0, score: orig[orig.len() - 1 - i].1 }),
                forall|i: int| 0 <= i < scores@.len() ==> #[trigger] scores@[i]
                    == (ScoreItem { name: orig[i].0, score: orig[i].1 }),
            decreases rev@.len(),
        {
            let item = rev.pop().unwrap();
            scores.push(item);
        }
        ScoreList { scores, state: ListSelection::new() }
    }
}

/// The high-score table and the name being typed for a new result.
pub struct ScoreState {
    pub score_list: ScoreList,
    pub new_score_name: String,
    pub max_name_length: u8,
}

/// The number of bytes a new name may take.
pub open spec fn name_length_limit() -> u8 {
    8
}

impl ScoreState {
    /// The table of `initial_scores`, highest first (equal scores in their
    /// given order), nothing selected, an empty name of at most 8 bytes.
    pub fn new(initial_scores: Vec<ScoreItem>) -> (res: ScoreState)
        ensures
            stably_sorted_from(res.score_list.scores@, initial_scores@),
            res.score_list.state.selected is None,
            res.score_list.state.offset == 0,
            res.new_score_name@ == Seq::<char>::empty(),
            res.max_name_length == name_length_limit(),
    {
        let mut instance = ScoreState {
            score_list: ScoreList { scores: initial_scores, state: ListSelection::new() },
            new_score_name: String::new(),
            max_name_length: 8,
        };
        instance.sort_scores();
        instance
    }

    /// Sorts the table by descending score; equal scores keep their order.
    pub fn sort_scores(&mut self)
        ensures
            stably_sorted_from(final(self).score_list.scores@, old(self).score_list.scores@),
            final(self).score_list.state == old(self).score_list.state,
            final(self).new_score_name == old(self).new_score_name,
            final(self).max_name_length == old(self).max_name_length,
    {
        sort_by_score_desc(&mut self.score_list.scores);
    }

    /// Adds the result `score` of `name` to the table and sorts it again: the
    /// new result goes after every result with at least its score.
    pub fn save_score(&mut self, name: String, score: u8)
        ensures
            stably_sorted_from(
                final(self).score_list.scores@,
                old(self).score_list.scores@.push(ScoreItem { name, score }),
            ),
            final(self).score_list.state == old(self).score_list.state,
            final(self).new_score_name == old(self).new_score_name,
            final(self).max_name_length == old(self).max_name_length,
    {
        let new_score = ScoreItem::new(name, score);
        self.score_list.scores.push(new_score);
        self.sort_scores();
    }

    /// No saved result carries the name `new_name`.
    pub fn is_name_new(&self, new_name: &String) -> (res: bool)
        ensures
            res == !exists|i: int| 0 <= i < self.score_list.scores@.len()
                && #[trigger] self.score_list.scores@[i].name@ == new_name@,
    {
        let n = self.score_list.scores.len();
        for i in 0..n
            invariant
                n == self.score_list.scores@.len(),
                forall|j: int| 0 <= j < i ==> #[trigger] self.score_list.scores@[j].name@ != new_name@,
        {
            if self.score_list.scores[i].name == *new_name {
                return false;
            }
        }
        true
    }

    /// The name being typed, followed by one '_' for each byte left of the
    /// 8-byte field, as the score dialog shows it.
    pub fn padded_new_score_name(&self) -> (res: String)
        requires
            byte_len(self.new_score_name@) <= 8,
        ensures
            res@ == self.new_score_name@ + Seq::new((8 - byte_len(self.new_score_name@)) as nat, |i: int| '_'),
    {
        let mut formatted_name = self.new_score_name.clone();
        let len = string_byte_len(&formatted_name);
        let count: usize = 8 - len;
        let ghost base = formatted_name@;
        let mut c: usize = 0;
        while c < count
            invariant
                c <= count,
                count == 8 - byte_len(base),
                formatted_name@ == base + Seq::new(c as nat, |i: int| '_'),
            decreases count - c,
        {
            string_push(&mut formatted_name, '_');
            c = c + 1;
            assert(formatted_name@ == base + Seq::new(c as nat, |i: int| '_'));
        }
        formatted_name
    }
}

} // verus!
