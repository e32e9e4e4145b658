//! The post-merge ordering of list buckets: two sequential stable
//! insertion sorts.  The first pass moves issues that carry a narrative
//! ahead of those without one; the second pass moves issues that carry a
//! drag score ahead of those without one, ascending by score.  Because the
//! second pass runs last and both passes are stable, the drag score is the
//! dominant key and narrative presence survives as the tie break among
//! issues with equal drag keys.

use vstd::prelude::*;
use crate::model::IssueDecorator;

verus! {

/// Which of the two ordering passes is running.
#[derive(Copy, Clone, Debug)]
pub enum SortPass {
    Narrative,
    Drag,
}

/// Key of the narrative pass: issues with a narrative come first.
pub open spec fn narrative_key(i: IssueDecorator) -> int {
    if i.narrative is Some {
        0
    } else {
        1
    }
}

/// Key of the drag pass: a carried score orders ascending, a missing
/// score sorts after every carried one.
pub open spec fn drag_key(i: IssueDecorator) -> int {
    match i.drag {
        Some(d) => d as int,
        None => 256,
    }
}

/// The combined key that the two passes realize together: drag dominant,
/// narrative presence as the tie break.
pub open spec fn agenda_key(i: IssueDecorator) -> int {
    2 * drag_key(i) + narrative_key(i)
}

pub open spec fn pass_key(i: IssueDecorator, pass: SortPass) -> int {
    match pass {
        SortPass::Narrative => narrative_key(i),
        SortPass::Drag => drag_key(i),
    }
}

pub open spec fn passk(pass: SortPass) -> spec_fn(IssueDecorator) -> int {
    |i: IssueDecorator| pass_key(i, pass)
}

pub open spec fn agendak() -> spec_fn(IssueDecorator) -> int {
    |i: IssueDecorator| agenda_key(i)
}

/// Nondecreasing under the key `k`.
pub open spec fn sorted_by_key(s: Seq<IssueDecorator>, k: spec_fn(IssueDecorator) -> int) -> bool {
    forall|i: int, j: int| 0 <= i <= j < s.len() ==> #[trigger] k(s[i]) <= #[trigger] k(s[j])
}

/// Stable insertion: `x` goes after every element whose key is at most
/// `k(x)` and before the first element whose key exceeds it.
pub open spec fn insert_by_key(
    k: spec_fn(IssueDecorator) -> int,
    x: IssueDecorator,
    s: Seq<IssueDecorator>,
) -> Seq<IssueDecorator>
    decreases s.len(),
{
    if s.len() == 0 {
        seq![x]
    } else if k(s[0]) <= k(x) {
        seq![s[0]] + insert_by_key(k, x, s.drop_first())
    } else {
        seq![x] + s
    }
}

/// Stable insertion sort by the key `k`: elements are inserted in input
/// order, so equal keys keep their relative order.
pub open spec fn sort_by_key(
    k: spec_fn(IssueDecorator) -> int,
    s: Seq<IssueDecorator>,
) -> Seq<IssueDecorator>
    decreases s.len(),
{
    if s.len() == 0 {
        s
    } else {
        insert_by_key(k, s.last(), sort_by_key(k, s.drop_last()))
    }
}

/// The full list-bucket ordering: the narrative pass, then the drag pass.
pub open spec fn spec_sort_issues(s: Seq<IssueDecorator>) -> Seq<IssueDecorator> {
    sort_by_key(passk(SortPass::Drag), sort_by_key(passk(SortPass::Narrative), s))
}

pub open spec fn narr_low_pred() -> spec_fn(IssueDecorator) -> bool {
    |i: IssueDecorator| narrative_key(i) == 0
}

pub open spec fn narr_high_pred() -> spec_fn(IssueDecorator) -> bool {
    |i: IssueDecorator| narrative_key(i) == 1
}

/// The issues of `s` whose narrative key is low (narrative present).
pub open spec fn narr_low(s: Seq<IssueDecorator>) -> Seq<IssueDecorator> {
    s.filter(narr_low_pred())
}

/// The issues of `s` whose narrative key is high (no narrative).
pub open spec fn narr_high(s: Seq<IssueDecorator>) -> Seq<IssueDecorator> {
    s.filter(narr_high_pred())
}

proof fn lemma_insert_multiset(k: spec_fn(IssueDecorator) -> int, x: IssueDecorator, s: Seq<IssueDecorator>)
    ensures
        insert_by_key(k, x, s).to_multiset() == s.to_multiset().insert(x),
    decreases s.len(),
{
    broadcast use vstd::seq_lib::group_to_multiset_ensures;

    if s.len() == 0 {
        assert(insert_by_key(k, x, s) =~= Seq::empty().push(x));
        assert(Seq::<IssueDecorator>::empty().push(x).to_multiset() =~= s.to_multiset().insert(x));
    } else if k(s[0]) <= k(x) {
        lemma_insert_multiset(k, x, s.drop_first());
        let rest = insert_by_key(k, x, s.drop_first());
        assert(insert_by_key(k, x, s) =~= rest.insert(0, s[0]));
        vstd::seq_lib::to_multiset_insert(rest, 0, s[0]);
        assert(s =~= s.drop_first().insert(0, s[0]));
        vstd::seq_lib::to_multiset_insert(s.drop_first(), 0, s[0]);
        assert(insert_by_key(k, x, s).to_multiset() =~= s.to_multiset().insert(x));
    } else {
        assert(insert_by_key(k, x, s) =~= s.insert(0, x));
        vstd::seq_lib::to_multiset_insert(s, 0, x);
        assert(insert_by_key(k, x, s).to_multiset() =~= s.to_multiset().insert(x));
    }
}

proof fn lemma_sort_multiset(k: spec_fn(IssueDecorator) -> int, s: Seq<IssueDecorator>)
    ensures
        sort_by_key(k, s).to_multiset() == s.to_multiset(),
    decreases s.len(),
{
    broadcast use vstd::seq_lib::group_to_multiset_ensures;

    if s.len() > 0 {
        lemma_sort_multiset(k, s.drop_last());
        lemma_insert_multiset(k, s.last(), sort_by_key(k, s.drop_last()));
        assert(s =~= s.drop_last().push(s.last()));
        vstd::seq_lib::to_multiset_build(s.drop_last(), s.last());
        assert(sort_by_key(k, s).to_multiset() =~= s.to_multiset());
    }
}

/// Every element of the sorted sequence is an element of the input.
proof fn lemma_sort_elements(k: spec_fn(IssueDecorator) -> int, s: Seq<IssueDecorator>, i: int)
    requires
        0 <= i < sort_by_key(k, s).len(),
    ensures
        s.contains(sort_by_key(k, s)[i]),
{
    broadcast use vstd::seq_lib::group_to_multiset_ensures;

    lemma_sort_multiset(k, s);
    let t = sort_by_key(k, s);
    let e = t[i];
    assert(t.contains(e));
    assert(t.to_multiset().count(e) > 0);
    assert(s.to_multiset().count(e) > 0);
}

proof fn lemma_insert_sorted(k: spec_fn(IssueDecorator) -> int, x: IssueDecorator, s: Seq<IssueDecorator>)
    requires
        sorted_by_key(s, k),
    ensures
        sorted_by_key(insert_by_key(k, x, s), k),
    decreases s.len(),
{
    broadcast use vstd::seq_lib::group_to_multiset_ensures;

    if s.len() == 0 {
    } else if k(s[0]) <= k(x) {
        assert(sorted_by_key(s.drop_first(), k));
        lemma_insert_sorted(k, x, s.drop_first());
        let rest = insert_by_key(k, x, s.drop_first());
        lemma_insert_multiset(k, x, s.drop_first());
        let out = seq![s[0]] + rest;
        assert forall|i: int, j: int| 0 <= i <= j < out.len() implies #[trigger] k(out[i]) <= #[trigger] k(out[j]) by {
            if i == 0 && j > 0 {
                assert(rest.contains(rest[j - 1]));
                assert(rest.to_multiset().contains(rest[j - 1]));
                if rest[j - 1] == x {
                    assert(k(out[i]) <= k(out[j]));
                } else {
                    assert(s.drop_first().to_multiset().contains(rest[j - 1]));
                    assert(s.drop_first().contains(rest[j - 1]));
                    let m = choose|m: int| 0 <= m < s.drop_first().len() && s.drop_first()[m] == rest[j - 1];
                    assert(k(s[0]) <= k(s[m + 1]));
                }
            }
        }
    } else {
        let out = seq![x] + s;
        assert forall|i: int, j: int| 0 <= i <= j < out.len() implies #[trigger] k(out[i]) <= #[trigger] k(out[j]) by {
            if i == 0 && j > 0 {
                assert(k(x) <= k(s[0]));
                assert(k(s[0]) <= k(s[j - 1]));
            }
        }
    }
}

proof fn lemma_sort_sorted(k: spec_fn(IssueDecorator) -> int, s: Seq<IssueDecorator>)
    ensures
        sorted_by_key(sort_by_key(k, s), k),
    decreases s.len(),
{
    if s.len() > 0 {
        lemma_sort_sorted(k, s.drop_last());
        lemma_insert_sorted(k, s.last(), sort_by_key(k, s.drop_last()));
    }
}

/// Inserting an element whose key dominates the whole sequence appends it.
proof fn lemma_insert_all_le(k: spec_fn(IssueDecorator) -> int, x: IssueDecorator, s: Seq<IssueDecorator>)
    requires
        forall|i: int| 0 <= i < s.len() ==> #[trigger] k(s[i]) <= k(x),
    ensures
        insert_by_key(k, x, s) == s + seq![x],
    decreases s.len(),
{
    if s.len() == 0 {
        assert(insert_by_key(k, x, s) =~= s + seq![x]);
    } else {
        assert(k(s[0]) <= k(x));
        lemma_insert_all_le(k, x, s.drop_first());
        assert(insert_by_key(k, x, s) =~= s + seq![x]);
    }
}

/// Insertion lands exactly at the first position whose key exceeds `k(x)`.
proof fn lemma_insert_at_first_gt(
    k: spec_fn(IssueDecorator) -> int,
    x: IssueDecorator,
    s: Seq<IssueDecorator>,
    j: int,
)
    requires
        0 <= j <= s.len(),
        forall|i: int| 0 <= i < j ==> #[trigger] k(s[i]) <= k(x),
        j < s.len() ==> k(s[j]) > k(x),
    ensures
        insert_by_key(k, x, s) == s.subrange(0, j) + seq![x] + s.subrange(j, s.len() as int),
    decreases j,
{
    if j == 0 {
        if s.len() == 0 {
            assert(insert_by_key(k, x, s) =~= s.subrange(0, 0) + seq![x] + s.subrange(0, 0));
        } else {
            assert(k(s[0]) > k(x));
            assert(insert_by_key(k, x, s) =~= s.subrange(0, 0) + seq![x] + s.subrange(0, s.len() as int));
        }
    } else {
        assert(k(s[0]) <= k(x));
        lemma_insert_at_first_gt(k, x, s.drop_first(), j - 1);
        assert(insert_by_key(k, x, s) =~= s.subrange(0, j) + seq![x] + s.subrange(j, s.len() as int));
    }
}

/// Inserting strictly below the last element leaves the last element last.
proof fn lemma_insert_below_last(
    k: spec_fn(IssueDecorator) -> int,
    x: IssueDecorator,
    w: Seq<IssueDecorator>,
    a: IssueDecorator,
)
    requires
        k(x) < k(a),
    ensures
        insert_by_key(k, x, w + seq![a]) == insert_by_key(k, x, w) + seq![a],
    decreases w.len(),
{
    if w.len() == 0 {
        assert(w + seq![a] =~= seq![a]);
        assert(insert_by_key(k, x, seq![a]) =~= seq![x, a]);
        assert(insert_by_key(k, x, w) + seq![a] =~= seq![x, a]);
    } else {
        let u = w + seq![a];
        assert(u[0] == w[0]);
        assert(u.drop_first() =~= w.drop_first() + seq![a]);
        if k(w[0]) <= k(x) {
            lemma_insert_below_last(k, x, w.drop_first(), a);
            assert(insert_by_key(k, x, u) =~= insert_by_key(k, x, w) + seq![a]);
        } else {
            assert(insert_by_key(k, x, u) =~= insert_by_key(k, x, w) + seq![a]);
        }
    }
}

/// Sorting a sequence with a pivot `a` that dominates the part before it
/// and strictly dominates the part after it pushes `a` to the very end.
proof fn lemma_sort_sandwich(
    k: spec_fn(IssueDecorator) -> int,
    p: Seq<IssueDecorator>,
    a: IssueDecorator,
    q: Seq<IssueDecorator>,
)
    requires
        forall|i: int| 0 <= i < p.len() ==> #[trigger] k(p[i]) <= k(a),
        forall|i: int| 0 <= i < q.len() ==> #[trigger] k(q[i]) < k(a),
    ensures
        sort_by_key(k, p + seq![a] + q) == sort_by_key(k, p + q) + seq![a],
    decreases q.len(),
{
    broadcast use vstd::seq_lib::group_to_multiset_ensures;

    if q.len() == 0 {
        let s = p + seq![a] + q;
        assert(s =~= p + seq![a]);
        assert(s.drop_last() =~= p);
        assert(s.last() == a);
        lemma_sort_multiset(k, p);
        assert forall|i: int| 0 <= i < sort_by_key(k, p).len() implies #[trigger] k(sort_by_key(k, p)[i]) <= k(a) by {
            lemma_sort_elements(k, p, i);
            let e = sort_by_key(k, p)[i];
            let m = choose|m: int| 0 <= m < p.len() && p[m] == e;
            assert(k(p[m]) <= k(a));
        }
        lemma_insert_all_le(k, a, sort_by_key(k, p));
        assert(p + q =~= p);
        assert(sort_by_key(k, s) =~= sort_by_key(k, p + q) + seq![a]);
    } else {
        let b = q.last();
        let q1 = q.drop_last();
        let s = p + seq![a] + q;
        assert(s.drop_last() =~= p + seq![a] + q1);
        assert(s.last() == b);
        lemma_sort_sandwich(k, p, a, q1);
        assert(k(b) < k(a));
        lemma_insert_below_last(k, b, sort_by_key(k, p + q1), a);
        let t = p + q;
        assert(t.drop_last() =~= p + q1);
        assert(t.last() == b);
        assert(sort_by_key(k, s) =~= sort_by_key(k, t) + seq![a]);
    }
}

/// The narrative pass is exactly the stable two way partition: issues
/// with a narrative, in input order, then the rest, in input order.
proof fn lemma_narrative_pass_partitions(z: Seq<IssueDecorator>)
    ensures
        sort_by_key(passk(SortPass::Narrative), z) == narr_low(z) + narr_high(z),
    decreases z.len(),
{
    reveal(Seq::filter);
    broadcast use vstd::seq_lib::group_filter_ensures;

    let k = passk(SortPass::Narrative);
    if z.len() == 0 {
        assert(sort_by_key(k, z) =~= narr_low(z) + narr_high(z));
    } else {
        let a = z.last();
        let z1 = z.drop_last();
        lemma_narrative_pass_partitions(z1);
        let lo = narr_low(z1);
        let hi = narr_high(z1);
        assert(forall|i: int| 0 <= i < lo.len() ==> narrative_key(#[trigger] lo[i]) == 0);
        assert(forall|i: int| 0 <= i < hi.len() ==> narrative_key(#[trigger] hi[i]) == 1);
        if narrative_key(a) == 0 {
            lemma_insert_at_first_gt(k, a, lo + hi, lo.len() as int);
            assert(narr_low(z) =~= lo.push(a));
            assert(narr_high(z) =~= hi);
            assert((lo + hi).subrange(0, lo.len() as int) =~= lo);
            assert((lo + hi).subrange(lo.len() as int, (lo + hi).len() as int) =~= hi);
            assert(sort_by_key(k, z) =~= narr_low(z) + narr_high(z));
        } else {
            assert(forall|i: int| 0 <= i < (lo + hi).len() ==> #[trigger] k((lo + hi)[i]) <= k(a));
            lemma_insert_all_le(k, a, lo + hi);
            assert(narr_low(z) =~= lo);
            assert(narr_high(z) =~= hi.push(a));
            assert(sort_by_key(k, z) =~= narr_low(z) + narr_high(z));
        }
    }
}

/// Two keys that agree on where `x` belongs insert `x` at the same spot.
proof fn lemma_insert_agree(
    k1: spec_fn(IssueDecorator) -> int,
    k2: spec_fn(IssueDecorator) -> int,
    x: IssueDecorator,
    w: Seq<IssueDecorator>,
)
    requires
        forall|i: int| 0 <= i < w.len() ==> ((#[trigger] k1(w[i]) <= k1(x)) <==> (#[trigger] k2(w[i]) <= k2(x))),
    ensures
        insert_by_key(k1, x, w) == insert_by_key(k2, x, w),
    decreases w.len(),
{
    if w.len() == 0 {
    } else {
        if k1(w[0]) <= k1(x) {
            lemma_insert_agree(k1, k2, x, w.drop_first());
            assert(insert_by_key(k1, x, w) =~= insert_by_key(k2, x, w));
        } else {
            assert(insert_by_key(k1, x, w) =~= insert_by_key(k2, x, w));
        }
    }
}

/// Over a narrative-partitioned sequence, sorting by the drag key alone
/// equals sorting by the combined agenda key: within the low block both
/// keys compare alike, and a high element is placed after its whole drag
/// class under either key.
proof fn lemma_drag_pass_realizes_agenda_key(u: Seq<IssueDecorator>, v: Seq<IssueDecorator>)
    requires
        forall|i: int| 0 <= i < u.len() ==> narrative_key(#[trigger] u[i]) == 0,
        forall|i: int| 0 <= i < v.len() ==> narrative_key(#[trigger] v[i]) == 1,
    ensures
        sort_by_key(passk(SortPass::Drag), u + v) == sort_by_key(agendak(), u + v),
    decreases u.len() + v.len(),
{
    broadcast use vstd::seq_lib::group_to_multiset_ensures;

    let kd = passk(SortPass::Drag);
    let ka = agendak();
    if v.len() > 0 {
        let b = v.last();
        let v1 = v.drop_last();
        let s = u + v;
        assert(s.drop_last() =~= u + v1);
        assert(s.last() == b);
        lemma_drag_pass_realizes_agenda_key(u, v1);
        let w = sort_by_key(ka, u + v1);
        assert forall|i: int| 0 <= i < w.len() implies ((#[trigger] kd(w[i]) <= kd(b)) <==> (#[trigger] ka(w[i]) <= ka(b))) by {
            assert(narrative_key(b) == 1);
            assert(0 <= narrative_key(w[i]) <= 1) by {
                lemma_sort_elements(ka, u + v1, i);
            }
        }
        lemma_insert_agree(kd, ka, b, w);
        assert(sort_by_key(kd, s) =~= sort_by_key(ka, s));
    } else if u.len() > 0 {
        let a = u.last();
        let u1 = u.drop_last();
        let s = u + v;
        assert(s =~= u);
        assert(s.drop_last() =~= u1 + Seq::<IssueDecorator>::empty());
        assert(u1 + Seq::<IssueDecorator>::empty() =~= u1);
        lemma_drag_pass_realizes_agenda_key(u1, Seq::empty());
        let w = sort_by_key(ka, u1);
        assert forall|i: int| 0 <= i < w.len() implies ((#[trigger] kd(w[i]) <= kd(a)) <==> (#[trigger] ka(w[i]) <= ka(a))) by {
            lemma_sort_elements(ka, u1, i);
            let e = w[i];
            let m = choose|m: int| 0 <= m < u1.len() && u1[m] == e;
            assert(narrative_key(u1[m]) == 0);
            assert(narrative_key(a) == 0);
        }
        lemma_insert_agree(kd, ka, a, w);
        assert(sort_by_key(kd, u) =~= sort_by_key(ka, u));
        assert(sort_by_key(kd, s) =~= sort_by_key(ka, s));
    } else {
        assert(u + v =~= Seq::<IssueDecorator>::empty());
    }
}

/// The two passes together order by the combined agenda key.
pub proof fn lemma_sort_orders(s: Seq<IssueDecorator>)
    ensures
        sorted_by_key(spec_sort_issues(s), agendak()),
{
    broadcast use vstd::seq_lib::group_filter_ensures;

    lemma_narrative_pass_partitions(s);
    let lo = narr_low(s);
    let hi = narr_high(s);
    assert(forall|i: int| 0 <= i < lo.len() ==> narrative_key(#[trigger] lo[i]) == 0);
    assert(forall|i: int| 0 <= i < hi.len() ==> narrative_key(#[trigger] hi[i]) == 1);
    lemma_drag_pass_realizes_agenda_key(lo, hi);
    lemma_sort_sorted(agendak(), lo + hi);
}

/// In the ordered bucket the drag score is the dominant key: drag keys
/// are nondecreasing, and among issues with equal drag keys those that
/// carry a narrative come first.  Swapping the two passes would reverse
/// which key dominates.
pub proof fn lemma_sort_drag_dominant(s: Seq<IssueDecorator>, i: int, j: int)
    requires
        0 <= i <= j < spec_sort_issues(s).len(),
    ensures
        drag_key(spec_sort_issues(s)[i]) <= drag_key(spec_sort_issues(s)[j]),
        drag_key(spec_sort_issues(s)[i]) == drag_key(spec_sort_issues(s)[j])
            ==> narrative_key(spec_sort_issues(s)[i]) <= narrative_key(spec_sort_issues(s)[j]),
{
    lemma_sort_orders(s);
    let x = spec_sort_issues(s);
    let ka = agendak();
    assert(ka(x[i]) <= ka(x[j]));
    assert(2 * drag_key(x[i]) + narrative_key(x[i]) <= 2 * drag_key(x[j]) + narrative_key(x[j]));
}

/// Sorting only permutes: the issues of the output are exactly the
/// issues of the input.
pub proof fn lemma_sort_permutes(s: Seq<IssueDecorator>)
    ensures
        spec_sort_issues(s).to_multiset() == s.to_multiset(),
{
    lemma_sort_multiset(passk(SortPass::Narrative), s);
    lemma_sort_multiset(passk(SortPass::Drag), sort_by_key(passk(SortPass::Narrative), s));
}

/// On a sequence already ordered by the agenda key the two passes change
/// nothing.
proof fn lemma_sort_of_sorted(x: Seq<IssueDecorator>)
    requires
        sorted_by_key(x, agendak()),
    ensures
        spec_sort_issues(x) == x,
    decreases x.len(),
{
    broadcast use vstd::seq_lib::group_filter_ensures;

    reveal(Seq::filter);
    let kn = passk(SortPass::Narrative);
    let kd = passk(SortPass::Drag);
    let ka = agendak();
    if x.len() == 0 {
        assert(spec_sort_issues(x) =~= x);
    } else {
        let a = x.last();
        let x1 = x.drop_last();
        assert(sorted_by_key(x1, ka));
        lemma_sort_of_sorted(x1);
        lemma_narrative_pass_partitions(x1);
        lemma_narrative_pass_partitions(x);
        let lo = narr_low(x1);
        let hi = narr_high(x1);
        assert(forall|i: int| 0 <= i < lo.len() ==> narrative_key(#[trigger] lo[i]) == 0);
        assert(forall|i: int| 0 <= i < hi.len() ==> narrative_key(#[trigger] hi[i]) == 1);
        // every earlier element is below `a` under the agenda key
        assert(forall|i: int| 0 <= i < x1.len() ==> #[trigger] ka(x1[i]) <= ka(a)) by {
            assert(forall|i: int| 0 <= i < x1.len() ==> x1[i] == x[i]);
            assert(forall|i: int| 0 <= i < x1.len() ==> #[trigger] ka(x[i]) <= ka(x[x.len() - 1]));
        }
        if narrative_key(a) == 0 {
            assert(narr_low(x) =~= lo.push(a));
            assert(narr_high(x) =~= hi);
            assert(sort_by_key(kn, x) =~= lo + seq![a] + hi);
            // low block: drag keys at most drag of a; high block: strictly less
            assert forall|i: int| 0 <= i < lo.len() implies #[trigger] kd(lo[i]) <= kd(a) by {
                let e = lo[i];
                assert(lo.contains(e));
                x1.lemma_filter_contains_rev(narr_low_pred(), e);
                assert(x1.contains(e));
                let m = choose|m: int| 0 <= m < x1.len() && x1[m] == e;
                assert(ka(x1[m]) <= ka(a));
                assert(2 * drag_key(e) <= 2 * drag_key(e) + narrative_key(e));
            }
            assert forall|i: int| 0 <= i < hi.len() implies #[trigger] kd(hi[i]) < kd(a) by {
                let e = hi[i];
                assert(hi.contains(e));
                x1.lemma_filter_contains_rev(narr_high_pred(), e);
                assert(x1.contains(e));
                let m = choose|m: int| 0 <= m < x1.len() && x1[m] == e;
                assert(ka(x1[m]) <= ka(a));
                assert(2 * drag_key(e) + 1 <= 2 * drag_key(a));
            }
            lemma_sort_sandwich(kd, lo, a, hi);
            assert(sort_by_key(kn, x1) =~= lo + hi);
            assert(spec_sort_issues(x) =~= spec_sort_issues(x1) + seq![a]);
            assert(spec_sort_issues(x) =~= x1 + seq![a]);
            assert(spec_sort_issues(x) =~= x);
        } else {
            assert(narr_low(x) =~= lo);
            assert(narr_high(x) =~= hi.push(a));
            assert(sort_by_key(kn, x) =~= (lo + hi) + seq![a]);
            assert((sort_by_key(kn, x)).drop_last() =~= lo + hi);
            assert((sort_by_key(kn, x)).last() == a);
            assert(sort_by_key(kn, x1) =~= lo + hi);
            // inserting a after the fully handled prefix appends it
            let w = sort_by_key(kd, lo + hi);
            assert(w =~= spec_sort_issues(x1));
            assert(w =~= x1);
            assert forall|i: int| 0 <= i < w.len() implies #[trigger] kd(w[i]) <= kd(a) by {
                assert(ka(x1[i]) <= ka(a));
                assert(2 * drag_key(x1[i]) <= 2 * drag_key(x1[i]) + narrative_key(x1[i]));
                assert(2 * drag_key(x1[i]) <= 2 * drag_key(a) + 1);
            }
            lemma_insert_all_le(kd, a, w);
            assert(spec_sort_issues(x) =~= x1 + seq![a]);
            assert(spec_sort_issues(x) =~= x);
        }
    }
}

/// Re-applying the list-bucket ordering to an already ordered bucket is a
/// no-op.
pub proof fn lemma_sort_idempotent(s: Seq<IssueDecorator>)
    ensures
        spec_sort_issues(spec_sort_issues(s)) == spec_sort_issues(s),
{
    lemma_sort_orders(s);
    lemma_sort_of_sorted(spec_sort_issues(s));
}

/// Exec key of one pass for one issue.
pub fn issue_key(i: &IssueDecorator, pass: SortPass) -> (r: u64)
    ensures
        r == pass_key(*i, pass),
{
    match pass {
        SortPass::Narrative => {
            if i.narrative.is_some() {
                0
            } else {
                1
            }
        },
        SortPass::Drag => {
            match i.drag {
                Some(d) => d as u64,
                None => 256,
            }
        },
    }
}

/// One stable insertion sort pass over a bucket.
#[verifier::loop_isolation(false)]
pub fn sort_pass(v: Vec<IssueDecorator>, pass: SortPass) -> (r: Vec<IssueDecorator>)
    ensures
        r@ == sort_by_key(passk(pass), v@),
{
    let ghost orig = v@;
    let ghost k = passk(pass);
    let mut rest = v;
    let mut out: Vec<IssueDecorator> = Vec::new();
    let ghost mut done: Seq<IssueDecorator> = Seq::empty();
    while rest.len() > 0
        invariant
            done + rest@ == orig,
            out@ == sort_by_key(k, done),
            k == passk(pass),
        decreases rest.len(),
    {
        let x = rest.remove(0);
        let key_x = issue_key(&x, pass);
        let mut j: usize = 0;
        while j < out.len() && issue_key(&out[j], pass) <= key_x
            invariant
                j <= out.len(),
                forall|i: int| 0 <= i < j ==> #[trigger] pass_key(out@[i], pass) <= pass_key(x, pass),
            decreases out.len() - j,
        {
            j += 1;
        }
        proof {
            assert forall|i: int| 0 <= i < j implies #[trigger] k(out@[i]) <= k(x) by {
                assert(pass_key(out@[i], pass) <= pass_key(x, pass));
            }
            if (j as int) < out@.len() {
                assert(pass_key(out@[j as int], pass) > pass_key(x, pass));
                assert(k(out@[j as int]) > k(x));
            }
            lemma_insert_at_first_gt(k, x, out@, j as int);
        }
        out.insert(j, x);
        proof {
            assert(done.push(x).drop_last() =~= done);
            assert(out@ =~= insert_by_key(k, x, sort_by_key(k, done)));
            assert(sort_by_key(k, done.push(x)) == insert_by_key(k, x, sort_by_key(k, done)));
            done = done.push(x);
            assert(done + rest@ =~= orig);
        }
    }
    proof {
        assert(done =~= orig);
    }
    out
}

/// Orders one list bucket: the narrative pass, then the drag pass.
pub fn sort_issues(v: Vec<IssueDecorator>) -> (r: Vec<IssueDecorator>)
    ensures
        r@ == spec_sort_issues(v@),
{
    let first = sort_pass(v, SortPass::Narrative);
    sort_pass(first, SortPass::Drag)
}

} // verus!
