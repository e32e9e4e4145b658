//! The run engine: expansion of a report into fetch tasks, aggregation of
//! completed fetch results into named buckets, and assembly of the final
//! rendering context.
//!
//! A run is fail fast on fetches: one failed fetch aborts the whole run
//! and no partial bucket map is ever returned.  A failed meetings lookup
//! is tolerated: the meetings entry of the context is then empty.

use vstd::prelude::*;
use crate::model::{
    Step, QueryKind, IssueDecorator, Meeting, Bucket, QueryResult, AgendaError, AgendaContext,
};
use crate::sort::{spec_sort_issues, sort_issues};

verus! {

/// Relies on str::eq: two string slices compare equal exactly when their
/// character sequences are equal.
#[verifier::external_body]
fn str_eq(a: &str, b: &str) -> (r: bool)
    ensures
        r == (a@ == b@),
{
    a == b
}

// ---------------------------------------------------------------------------
// Task expansion
// ---------------------------------------------------------------------------

/// A fetch task: indices of a group, of a repository within the group and
/// of a named query within the group.
pub open spec fn pair_in_bounds(step: Step, t: (usize, usize, usize)) -> bool {
    &&& t.0 < step.actions@.len()
    &&& t.1 < step.actions@[t.0 as int].repos@.len()
    &&& t.2 < step.actions@[t.0 as int].queries@.len()
}

/// Lexicographic order of fetch tasks: group, then repository, then query.
pub open spec fn pair_lt(a: (usize, usize, usize), b: (usize, usize, usize)) -> bool {
    ||| a.0 < b.0
    ||| (a.0 == b.0 && a.1 < b.1)
    ||| (a.0 == b.0 && a.1 == b.1 && a.2 < b.2)
}

/// Expands a report into its fetch tasks: every (repository, named query)
/// pair of every group, each exactly once, in declaration order.  A repository
/// that appears in several groups yields one task per appearance.
#[verifier::loop_isolation(false)]
pub fn expand_pairs(step: &Step) -> (r: Vec<(usize, usize, usize)>)
    ensures
        forall|m: int| 0 <= m < r@.len() ==> pair_in_bounds(*step, #[trigger] r@[m]),
        forall|m1: int, m2: int|
            0 <= m1 < m2 < r@.len() ==> pair_lt(#[trigger] r@[m1], #[trigger] r@[m2]),
        forall|t: (usize, usize, usize)| pair_in_bounds(*step, t) ==> r@.contains(t),
        step.actions@.len() == 0 ==> r@.len() == 0,
{
    let mut r: Vec<(usize, usize, usize)> = Vec::new();
    let mut g: usize = 0;
    while g < step.actions.len()
        invariant
            g <= step.actions@.len(),
            forall|m: int| 0 <= m < r@.len() ==> pair_in_bounds(*step, #[trigger] r@[m]),
            forall|m: int| 0 <= m < r@.len() ==> (#[trigger] r@[m]).0 < g,
            forall|m1: int, m2: int|
                0 <= m1 < m2 < r@.len() ==> pair_lt(#[trigger] r@[m1], #[trigger] r@[m2]),
            forall|t: (usize, usize, usize)|
                pair_in_bounds(*step, t) && t.0 < g ==> r@.contains(t),
        decreases step.actions@.len() - g,
    {
        let group = &step.actions[g];
        let mut rr: usize = 0;
        while rr < group.repos.len()
            invariant
                rr <= group.repos@.len(),
                forall|m: int| 0 <= m < r@.len() ==> pair_in_bounds(*step, #[trigger] r@[m]),
                forall|m: int|
                    0 <= m < r@.len()
                        ==> (#[trigger] r@[m]).0 < g || (r@[m].0 == g && r@[m].1 < rr),
                forall|m1: int, m2: int|
                    0 <= m1 < m2 < r@.len() ==> pair_lt(#[trigger] r@[m1], #[trigger] r@[m2]),
                forall|t: (usize, usize, usize)|
                    pair_in_bounds(*step, t) && (t.0 < g || (t.0 == g && t.1 < rr))
                        ==> r@.contains(t),
            decreases group.repos@.len() - rr,
        {
            let mut q: usize = 0;
            while q < group.queries.len()
                invariant
                    q <= group.queries@.len(),
                    forall|m: int| 0 <= m < r@.len() ==> pair_in_bounds(*step, #[trigger] r@[m]),
                    forall|m: int|
                        0 <= m < r@.len()
                            ==> (#[trigger] r@[m]).0 < g || (r@[m].0 == g && r@[m].1 < rr) || (
                            r@[m].0 == g && r@[m].1 == rr && r@[m].2 < q),
                    forall|m1: int, m2: int|
                        0 <= m1 < m2 < r@.len() ==> pair_lt(#[trigger] r@[m1], #[trigger] r@[m2]),
                    forall|t: (usize, usize, usize)|
                        pair_in_bounds(*step, t) && (t.0 < g || (t.0 == g && t.1 < rr) || (t.0 == g
                            && t.1 == rr && t.2 < q)) ==> r@.contains(t),
                decreases group.queries@.len() - q,
            {
                let ghost old_r = r@;
                r.push((g, rr, q));
                proof {
                    assert forall|t: (usize, usize, usize)|
                        pair_in_bounds(*step, t) && (t.0 < g || (t.0 == g && t.1 < rr) || (t.0 == g
                            && t.1 == rr && t.2 < q + 1)) implies r@.contains(t) by {
                        if t.0 == g && t.1 == rr && t.2 == q {
                            assert(r@[r@.len() - 1] == t);
                        } else {
                            assert(old_r.contains(t));
                            let m = choose|m: int| 0 <= m < old_r.len() && old_r[m] == t;
                            assert(r@[m] == t);
                        }
                    }
                }
                q += 1;
            }
            rr += 1;
        }
        g += 1;
    }
    proof {
        if step.actions@.len() == 0 && r@.len() > 0 {
            assert(pair_in_bounds(*step, r@[0]));
            assert(false);
        }
    }
    r
}

// ---------------------------------------------------------------------------
// Aggregation model
// ---------------------------------------------------------------------------

/// Whether some completed tuple feeds the bucket `name` in List mode.
pub open spec fn is_list_name(t: Seq<QueryResult>, name: Seq<char>) -> bool {
    exists|i: int| 0 <= i < t.len() && (#[trigger] t[i]).kind is List && t[i].name@ == name
}

/// What one tuple contributes to the count bucket `name`.
pub open spec fn count_contrib(qr: QueryResult, name: Seq<char>) -> nat {
    if qr.kind is Count && qr.name@ == name {
        qr.issues@.len()
    } else {
        0
    }
}

/// The issues appended to the list bucket `name`, in tuple order.
pub open spec fn list_concat(t: Seq<QueryResult>, name: Seq<char>) -> Seq<IssueDecorator>
    decreases t.len(),
{
    if t.len() == 0 {
        Seq::empty()
    } else if t.last().kind is List && t.last().name@ == name {
        list_concat(t.drop_last(), name) + t.last().issues@
    } else {
        list_concat(t.drop_last(), name)
    }
}

/// The total count accumulated for the bucket `name`: the sum of the
/// result lengths of its Count mode tuples.
pub open spec fn count_sum(t: Seq<QueryResult>, name: Seq<char>) -> nat
    decreases t.len(),
{
    if t.len() == 0 {
        0
    } else {
        count_sum(t.drop_last(), name) + count_contrib(t.last(), name)
    }
}

/// The bucket names in order of first contribution, each once.
pub open spec fn names_in_order(t: Seq<QueryResult>) -> Seq<Seq<char>>
    decreases t.len(),
{
    if t.len() == 0 {
        Seq::empty()
    } else if names_in_order(t.drop_last()).contains(t.last().name@) {
        names_in_order(t.drop_last())
    } else {
        names_in_order(t.drop_last()).push(t.last().name@)
    }
}

/// A count saturates at the machine limit of the bucket value.
pub open spec fn clamp_u64(n: nat) -> u64 {
    if n > u64::MAX {
        u64::MAX
    } else {
        n as u64
    }
}

/// What the bucket `name` must hold after merging the tuples `t`.  A
/// bucket with any List contribution is the ordered concatenation of its
/// List contributions (counts to the same name are shadowed, as one mode
/// per name is expected); otherwise it is the accumulated count.
pub open spec fn bucket_matches(b: Bucket, t: Seq<QueryResult>, name: Seq<char>, sorted: bool) -> bool {
    if is_list_name(t, name) {
        &&& b matches Bucket::Issues(v)
        &&& v@ == (if sorted {
            spec_sort_issues(list_concat(t, name))
        } else {
            list_concat(t, name)
        })
    } else {
        &&& b matches Bucket::Count(c)
        &&& c == clamp_u64(count_sum(t, name))
    }
}

/// The whole bucket map after merging `t`: one entry per contributed
/// name, in order of first contribution, each matching its bucket value.
pub open spec fn buckets_match(entries: Seq<(String, Bucket)>, t: Seq<QueryResult>, sorted: bool) -> bool {
    &&& entries.len() == names_in_order(t).len()
    &&& forall|m: int|
        0 <= m < entries.len()
            ==> (#[trigger] entries[m]).0@ == names_in_order(t)[m] && bucket_matches(
            entries[m].1,
            t,
            entries[m].0@,
            sorted,
        )
}

// ---------------------------------------------------------------------------
// Aggregation lemmas
// ---------------------------------------------------------------------------

/// How one more tuple changes the aggregation model.
proof fn lemma_merge_push(t: Seq<QueryResult>, qr: QueryResult, name: Seq<char>)
    ensures
        list_concat(t.push(qr), name) == if qr.kind is List && qr.name@ == name {
            list_concat(t, name) + qr.issues@
        } else {
            list_concat(t, name)
        },
        count_sum(t.push(qr), name) == count_sum(t, name) + count_contrib(qr, name),
        names_in_order(t.push(qr)) == if names_in_order(t).contains(qr.name@) {
            names_in_order(t)
        } else {
            names_in_order(t).push(qr.name@)
        },
        is_list_name(t.push(qr), name) == (is_list_name(t, name) || (qr.kind is List && qr.name@
            == name)),
{
    assert(t.push(qr).drop_last() =~= t);
    assert(t.push(qr).last() == qr);
    if !(qr.kind is List && qr.name@ == name) {
        assert(list_concat(t.push(qr), name) == list_concat(t, name));
    }
    if is_list_name(t, name) {
        let i = choose|i: int| 0 <= i < t.len() && (#[trigger] t[i]).kind is List && t[i].name@ == name;
        assert(t.push(qr)[i] == t[i]);
        assert(is_list_name(t.push(qr), name));
    }
    if qr.kind is List && qr.name@ == name {
        assert(t.push(qr)[t.len() as int] == qr);
        assert(is_list_name(t.push(qr), name));
    }
    if is_list_name(t.push(qr), name) {
        let i = choose|i: int|
            0 <= i < t.push(qr).len() && (#[trigger] t.push(qr)[i]).kind is List && t.push(
                qr,
            )[i].name@ == name;
        if i < t.len() {
            assert(t[i] == t.push(qr)[i]);
            assert(is_list_name(t, name));
        }
    }
}

/// A name that no tuple feeds has no bucket: nothing concatenates and
/// nothing counts.
proof fn lemma_absent_name(t: Seq<QueryResult>, name: Seq<char>)
    requires
        forall|i: int| 0 <= i < t.len() ==> (#[trigger] t[i]).name@ != name,
    ensures
        !is_list_name(t, name),
        list_concat(t, name) == Seq::<IssueDecorator>::empty(),
        count_sum(t, name) == 0,
    decreases t.len(),
{
    if t.len() > 0 {
        assert(forall|i: int|
            0 <= i < t.drop_last().len() ==> (#[trigger] t.drop_last()[i]).name@ != name);
        lemma_absent_name(t.drop_last(), name);
        assert(t.last().name@ != name);
    }
}

/// A list bucket without List contributions concatenates to nothing.
proof fn lemma_no_list_concat_empty(t: Seq<QueryResult>, name: Seq<char>)
    requires
        !is_list_name(t, name),
    ensures
        list_concat(t, name) == Seq::<IssueDecorator>::empty(),
    decreases t.len(),
{
    if t.len() > 0 {
        assert forall|i: int| 0 <= i < t.drop_last().len() implies !((#[trigger] t.drop_last()[i]).kind is List
            && t.drop_last()[i].name@ == name) by {
            assert(t[i] == t.drop_last()[i]);
        }
        lemma_no_list_concat_empty(t.drop_last(), name);
        assert(!(t.last().kind is List && t.last().name@ == name)) by {
            assert(t[t.len() - 1] == t.last());
        }
    }
}

/// The contributed names are exactly the names of the tuples.
proof fn lemma_names_complete(t: Seq<QueryResult>, name: Seq<char>)
    ensures
        names_in_order(t).contains(name) <==> exists|i: int|
            0 <= i < t.len() && (#[trigger] t[i]).name@ == name,
    decreases t.len(),
{
    if t.len() > 0 {
        lemma_names_complete(t.drop_last(), name);
        if names_in_order(t).contains(name) {
            if t.last().name@ == name {
                assert(t[t.len() - 1].name@ == name);
            } else {
                assert(names_in_order(t.drop_last()).contains(name) ==> exists|i: int|
                    0 <= i < t.drop_last().len() && (#[trigger] t.drop_last()[i]).name@ == name);
                if names_in_order(t.drop_last()).contains(name) {
                    let i = choose|i: int|
                        0 <= i < t.drop_last().len() && (#[trigger] t.drop_last()[i]).name@ == name;
                    assert(t[i].name@ == name);
                } else {
                    let front = names_in_order(t.drop_last());
                    assert(names_in_order(t) == front || names_in_order(t) == front.push(
                        t.last().name@,
                    ));
                }
            }
        }
        if exists|i: int| 0 <= i < t.len() && (#[trigger] t[i]).name@ == name {
            let i = choose|i: int| 0 <= i < t.len() && (#[trigger] t[i]).name@ == name;
            if i < t.len() - 1 {
                assert(t.drop_last()[i].name@ == name);
                assert(names_in_order(t.drop_last()).contains(name));
                let front = names_in_order(t.drop_last());
                let m = choose|m: int| 0 <= m < front.len() && front[m] == name;
                if !front.contains(t.last().name@) {
                    assert(names_in_order(t)[m] == name);
                }
                assert(names_in_order(t).contains(name));
            } else {
                if !names_in_order(t.drop_last()).contains(name) {
                    let w = names_in_order(t);
                    assert(w[w.len() - 1] == name);
                }
            }
        }
    }
}

/// No name appears twice among the contributed names.
proof fn lemma_names_no_dup(t: Seq<QueryResult>)
    ensures
        forall|m1: int, m2: int|
            0 <= m1 < m2 < names_in_order(t).len() ==> #[trigger] names_in_order(t)[m1]
                != #[trigger] names_in_order(t)[m2],
    decreases t.len(),
{
    if t.len() > 0 {
        lemma_names_no_dup(t.drop_last());
        let front = names_in_order(t.drop_last());
        if !front.contains(t.last().name@) {
            assert forall|m1: int, m2: int|
                0 <= m1 < m2 < names_in_order(t).len() implies #[trigger] names_in_order(t)[m1]
                != #[trigger] names_in_order(t)[m2] by {
                if m2 == names_in_order(t).len() - 1 {
                    assert(front[m1] == names_in_order(t)[m1]);
                    assert(front.contains(front[m1]));
                }
            }
        }
    }
}

// ---------------------------------------------------------------------------
// Merging
// ---------------------------------------------------------------------------

/// Folds completed fetch tuples into the bucket map, in observed order.
/// List buckets are not yet ordered here.
#[verifier::loop_isolation(false)]
fn merge_results(results: Vec<QueryResult>) -> (r: Vec<(String, Bucket)>)
    ensures
        buckets_match(r@, results@, false),
{
    let ghost orig = results@;
    let mut rest = results;
    let mut out: Vec<(String, Bucket)> = Vec::new();
    let ghost mut done: Seq<QueryResult> = Seq::empty();
    while rest.len() > 0
        invariant
            done + rest@ == orig,
            buckets_match(out@, done, false),
        decreases rest@.len(),
    {
        let qr = rest.remove(0);
        let ghost gqr = qr;
        let QueryResult { name: qname, kind: qkind, issues: qissues } = qr;
        let mut m: usize = 0;
        while m < out.len() && !str_eq(out[m].0.as_str(), qname.as_str())
            invariant
                m <= out.len(),
                forall|i: int| 0 <= i < m ==> (#[trigger] out@[i]).0@ != qname@,
            decreases out.len() - m,
        {
            m += 1;
        }
        let found = m < out.len();
        proof {
            lemma_names_no_dup(done);
            lemma_names_complete(done, qname@);
            if found {
                assert(names_in_order(done).contains(qname@)) by {
                    assert(names_in_order(done)[m as int] == out@[m as int].0@);
                }
            } else {
                if names_in_order(done).contains(qname@) {
                    let w = choose|w: int|
                        0 <= w < names_in_order(done).len() && names_in_order(done)[w] == qname@;
                    assert(out@[w].0@ == qname@);
                    assert(false);
                }
                assert(!names_in_order(done).contains(qname@));
                assert forall|i: int| 0 <= i < done.len() implies (#[trigger] done[i]).name@
                    != qname@ by {
                    lemma_names_complete(done, qname@);
                }
                lemma_absent_name(done, qname@);
            }
            lemma_merge_push(done, gqr, qname@);
            assert forall|nm: Seq<char>| nm != qname@ implies (list_concat(done.push(gqr), nm)
                == list_concat(done, nm) && count_sum(done.push(gqr), nm) == count_sum(done, nm)
                && is_list_name(done.push(gqr), nm) == is_list_name(done, nm)) by {
                lemma_merge_push(done, gqr, nm);
            }
        }
        let ghost old_out = out@;
        match qkind {
            QueryKind::List => {
                if found {
                    let (ename, b) = out.remove(m);
                    match b {
                        Bucket::Issues(mut v) => {
                            let mut qi = qissues;
                            v.append(&mut qi);
                            out.insert(m, (ename, Bucket::Issues(v)));
                        },
                        Bucket::Count(_) => {
                            proof {
                                assert(!is_list_name(done, qname@));
                                lemma_no_list_concat_empty(done, qname@);
                            }
                            out.insert(m, (ename, Bucket::Issues(qissues)));
                        },
                    }
                    proof {
                        assert(out@ =~= old_out.update(m as int, (out@[m as int].0, out@[m as int].1)));
                    }
                } else {
                    out.push((qname, Bucket::Issues(qissues)));
                }
            },
            QueryKind::Count => {
                let add: u64 = qissues.len() as u64;
                if found {
                    let (ename, b) = out.remove(m);
                    match b {
                        Bucket::Count(c) => {
                            let c2: u64 = if c > u64::MAX - add {
                                u64::MAX
                            } else {
                                c + add
                            };
                            out.insert(m, (ename, Bucket::Count(c2)));
                        },
                        Bucket::Issues(v) => {
                            out.insert(m, (ename, Bucket::Issues(v)));
                        },
                    }
                    proof {
                        assert(out@ =~= old_out.update(m as int, (out@[m as int].0, out@[m as int].1)));
                    }
                } else {
                    out.push((qname, Bucket::Count(add)));
                }
            },
        }
        proof {
            let prev = done;
            done = done.push(gqr);
            assert(done + rest@ =~= orig);
            assert forall|j: int| 0 <= j < out@.len() implies (#[trigger] out@[j]).0@
                == names_in_order(done)[j] && bucket_matches(out@[j].1, done, out@[j].0@, false) by {
                if found && j == m {
                } else if !found && j == out@.len() - 1 {
                } else {
                    assert(out@[j] == old_out[j]);
                    assert(old_out[j].0@ != qname@) by {
                        if found {
                            assert(old_out[j].0@ == names_in_order(prev)[j]);
                            assert(old_out[m as int].0@ == names_in_order(prev)[m as int]);
                            assert(old_out[m as int].0@ == qname@);
                        }
                    }
                }
            }
        }
    }
    proof {
        assert(done =~= orig);
    }
    out
}

/// Applies the list-bucket ordering to every list bucket of the merged
/// map; count buckets are untouched.
#[verifier::loop_isolation(false)]
fn sort_buckets(entries: Vec<(String, Bucket)>, Ghost(t): Ghost<Seq<QueryResult>>) -> (r: Vec<(String, Bucket)>)
    requires
        buckets_match(entries@, t, false),
    ensures
        buckets_match(r@, t, true),
{
    let ghost orig = entries@;
    let mut rest = entries;
    let mut out: Vec<(String, Bucket)> = Vec::new();
    while rest.len() > 0
        invariant
            out@.len() + rest@.len() == orig.len(),
            rest@ =~= orig.skip(out@.len() as int),
            forall|j: int| 0 <= j < out@.len() ==> (#[trigger] out@[j]).0@ == names_in_order(t)[j]
                && bucket_matches(out@[j].1, t, out@[j].0@, true),
        decreases rest@.len(),
    {
        let ghost j = out@.len() as int;
        let (name, b) = rest.remove(0);
        proof {
            assert(orig[j].0 == name && orig[j].1 == b);
        }
        match b {
            Bucket::Issues(v) => {
                let sorted = sort_issues(v);
                out.push((name, Bucket::Issues(sorted)));
            },
            Bucket::Count(c) => {
                out.push((name, Bucket::Count(c)));
            },
        }
    }
    out
}

// ---------------------------------------------------------------------------
// Fail fast aggregation
// ---------------------------------------------------------------------------

/// The successful fetch tuples, in observed order.
pub open spec fn oks(s: Seq<Result<QueryResult, AgendaError>>) -> Seq<QueryResult>
    decreases s.len(),
{
    if s.len() == 0 {
        Seq::empty()
    } else if s.last() is Ok {
        oks(s.drop_last()).push(s.last()->Ok_0)
    } else {
        oks(s.drop_last())
    }
}

/// The position of the first failed outcome.
pub open spec fn first_err(s: Seq<Result<QueryResult, AgendaError>>) -> int
    decreases s.len(),
{
    if s.len() == 0 {
        0
    } else if s[0] is Err {
        0
    } else {
        1 + first_err(s.drop_first())
    }
}

proof fn lemma_first_err_at(s: Seq<Result<QueryResult, AgendaError>>, i: int)
    requires
        0 <= i < s.len(),
        s[i] is Err,
        forall|j: int| 0 <= j < i ==> (#[trigger] s[j]) is Ok,
    ensures
        first_err(s) == i,
    decreases i,
{
    if i > 0 {
        assert(s[0] is Ok);
        assert(s.drop_first()[i - 1] is Err);
        lemma_first_err_at(s.drop_first(), i - 1);
    }
}

/// Folds the joined task outcomes into the final, ordered bucket map.
/// One failed fetch or task fails the whole run: the first failure is
/// returned and no bucket map is built.  On success every bucket is
/// pinned by the merge and ordering model.
#[verifier::loop_isolation(false)]
pub fn aggregate(outcomes: Vec<Result<QueryResult, AgendaError>>) -> (r: Result<
    Vec<(String, Bucket)>,
    AgendaError,
>)
    ensures
        r is Ok <==> (forall|i: int| 0 <= i < outcomes@.len() ==> (#[trigger] outcomes@[i]) is Ok),
        r matches Err(e) ==> ({
            let j = first_err(outcomes@);
            &&& 0 <= j < outcomes@.len()
            &&& outcomes@[j] is Err
            &&& e == outcomes@[j]->Err_0
        }),
        r matches Ok(entries) ==> buckets_match(entries@, oks(outcomes@), true),
{
    let ghost orig = outcomes@;
    let mut rest = outcomes;
    let mut successes: Vec<QueryResult> = Vec::new();
    let ghost mut done: Seq<Result<QueryResult, AgendaError>> = Seq::empty();
    while rest.len() > 0
        invariant
            done + rest@ == orig,
            forall|i: int| 0 <= i < done.len() ==> (#[trigger] done[i]) is Ok,
            successes@ == oks(done),
        decreases rest@.len(),
    {
        let o = rest.remove(0);
        let ghost go = o;
        match o {
            Ok(qr) => {
                successes.push(qr);
                proof {
                    assert(done.push(go).drop_last() =~= done);
                    done = done.push(go);
                    assert(done + rest@ =~= orig);
                }
            },
            Err(e) => {
                proof {
                    let j = done.len() as int;
                    assert(orig[j] == go);
                    assert forall|i: int| 0 <= i < j implies (#[trigger] orig[i]) is Ok by {
                        assert(orig[i] == done[i]);
                    }
                    lemma_first_err_at(orig, j);
                }
                return Err(e);
            },
        }
    }
    proof {
        assert(done =~= orig);
    }
    let merged = merge_results(successes);
    let sorted = sort_buckets(merged, Ghost(oks(orig)));
    Ok(sorted)
}

// ---------------------------------------------------------------------------
// Context assembly
// ---------------------------------------------------------------------------

/// Builds the rendering context of one run from the joined task outcomes,
/// the current date and the meetings lookup.
///
/// Fetch and task failures are fatal: the first one is returned and no
/// context is built, however many sibling fetches succeeded.  A failed
/// meetings lookup is tolerated: the run succeeds with an empty meetings
/// sequence.  A run with no outcomes yields a context whose bucket map is
/// empty, leaving only the two fixed entries.
pub fn finish_run(
    report_name: String,
    outcomes: Vec<Result<QueryResult, AgendaError>>,
    current_date: String,
    meetings: Result<Vec<Meeting>, String>,
) -> (r: Result<AgendaContext, AgendaError>)
    ensures
        r is Ok <==> (forall|i: int| 0 <= i < outcomes@.len() ==> (#[trigger] outcomes@[i]) is Ok),
        r matches Err(e) ==> ({
            let j = first_err(outcomes@);
            &&& 0 <= j < outcomes@.len()
            &&& outcomes@[j] is Err
            &&& e == outcomes@[j]->Err_0
        }),
        r matches Ok(ctx) ==> ({
            &&& ctx.report_name == report_name
            &&& ctx.current_date == current_date
            &&& buckets_match(ctx.buckets@, oks(outcomes@), true)
            &&& (meetings matches Ok(ms) ==> ctx.meetings == ms)
            &&& (meetings is Err ==> ctx.meetings@ == Seq::<Meeting>::empty())
            &&& (outcomes@.len() == 0 ==> ctx.buckets@.len() == 0)
        }),
{
    let buckets = match aggregate(outcomes) {
        Ok(entries) => entries,
        Err(e) => {
            return Err(e);
        },
    };
    let ms = match meetings {
        Ok(ms) => ms,
        Err(_) => Vec::new(),
    };
    Ok(AgendaContext { report_name, buckets, current_date, meetings: ms })
}

// ---------------------------------------------------------------------------
// Order independence of count accumulation
// ---------------------------------------------------------------------------

proof fn lemma_count_sum_remove(t: Seq<QueryResult>, j: int, name: Seq<char>)
    requires
        0 <= j < t.len(),
    ensures
        count_sum(t, name) == count_sum(t.remove(j), name) + count_contrib(t[j], name),
    decreases t.len(),
{
    if j == t.len() - 1 {
        assert(t.remove(j) =~= t.drop_last());
    } else {
        assert(t.remove(j).drop_last() =~= t.drop_last().remove(j));
        assert(t.remove(j).last() == t.last());
        lemma_count_sum_remove(t.drop_last(), j, name);
    }
}

/// Count bucket accumulation is order independent: the same multiset of
/// per task results yields the same accumulated count for every bucket
/// name, whatever the completion order was.
pub proof fn lemma_count_sum_permutation(t1: Seq<QueryResult>, t2: Seq<QueryResult>, name: Seq<char>)
    requires
        t1.to_multiset() == t2.to_multiset(),
    ensures
        count_sum(t1, name) == count_sum(t2, name),
    decreases t1.len(),
{
    broadcast use vstd::seq_lib::group_to_multiset_ensures;

    if t1.len() == 0 {
        assert(t2.to_multiset().len() == 0);
        assert(t2.len() == 0);
    } else {
        let a = t1.last();
        let front = t1.drop_last();
        assert(t1 =~= front.push(a));
        assert(t1.to_multiset() == front.to_multiset().insert(a));
        assert(t1.to_multiset().count(a) > 0);
        assert(t1.contains(a));
        assert(t2.to_multiset().count(a) > 0);
        assert(t2.contains(a));
        let j = choose|j: int| 0 <= j < t2.len() && t2[j] == a;
        assert(t2.remove(j).to_multiset() =~= t2.to_multiset().remove(t2[j]));
        assert(front.to_multiset() =~= t2.remove(j).to_multiset()) by {
            assert(front.to_multiset().insert(a).remove(a) =~= front.to_multiset());
        }
        lemma_count_sum_permutation(front, t2.remove(j), name);
        lemma_count_sum_remove(t2, j, name);
    }
}

} // verus!
