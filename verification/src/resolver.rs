//! The batch resolver: identifier lists are split into consecutive waves of
//! bounded size, each wave's fetches run together, and the results are
//! collected back in submission order with failed fetches dropped.

use vstd::prelude::*;
use crate::story::Story;

verus! {

/// The stories among a wave's per-fetch outcomes, kept in submission order;
/// a failed fetch contributes nothing.
pub open spec fn successes(rs: Seq<Option<Story>>) -> Seq<Story>
    decreases rs.len(),
{
    if rs.len() == 0 {
        Seq::<Story>::empty()
    } else {
        (match rs[0] {
            Some(s) => seq![s],
            None => Seq::<Story>::empty(),
        }) + successes(rs.subrange(1, rs.len() as int))
    }
}

/// How many waves of size `c` an input of length `n` takes: the division
/// `n / c` rounded up (see `lemma_wave_count_is_ceil`).
pub open spec fn wave_count(n: int, c: int) -> int
    decreases n,
    when c >= 1 && n >= 0
{
    if n <= 0 {
        0
    } else if n <= c {
        1
    } else {
        1 + wave_count(n - c, c)
    }
}

/// An input of length `n` takes exactly `ceil(n / c)` waves.
pub proof fn lemma_wave_count_is_ceil(n: int, c: int)
    requires
        n >= 0,
        c >= 1,
    ensures
        wave_count(n, c) == (n + c - 1) / c,
    decreases n,
{
    if n == 0 {
        vstd::arithmetic::div_mod::lemma_fundamental_div_mod_converse(c - 1, c, 0, c - 1);
    } else if n <= c {
        vstd::arithmetic::div_mod::lemma_fundamental_div_mod_converse(n + c - 1, c, 1, n - 1);
    } else {
        lemma_wave_count_is_ceil(n - c, c);
        let q0 = (n - 1) / c;
        let r0 = (n - 1) % c;
        assert(n + c - 1 == (q0 + 1) * c + r0) by {
            vstd::arithmetic::div_mod::lemma_fundamental_div_mod(n - 1, c);
            assert((q0 + 1) * c == c * q0 + c) by (nonlinear_arith);
        }
        assert(0 <= r0 < c) by {
            vstd::arithmetic::div_mod::lemma_mod_pos_bound(n - 1, c);
        }
        vstd::arithmetic::div_mod::lemma_fundamental_div_mod_converse(n + c - 1, c, q0 + 1, r0);
    }
}

/// The waves for an input of length `n` under a fan-out limit of
/// `chunk_size`: consecutive index ranges that start at zero, cover the
/// whole input in order, fill every wave but the last to exactly the
/// limit, and never exceed it.
pub fn chunk_bounds(n: usize, chunk_size: usize) -> (r: Vec<(usize, usize)>)
    requires
        chunk_size >= 1,
    ensures
        r@.len() == wave_count(n as int, chunk_size as int),
        forall|i: int| 0 <= i < r@.len() ==> (#[trigger] r@[i]).0 < r@[i].1 <= n,
        forall|i: int| 0 <= i < r@.len() ==> (#[trigger] r@[i]).1 - r@[i].0 <= chunk_size,
        forall|i: int|
            0 <= i < r@.len() - 1 ==> (#[trigger] r@[i]).1 - r@[i].0 == chunk_size,
        r@.len() > 0 ==> r@[0].0 == 0,
        forall|i: int| 0 <= i < r@.len() - 1 ==> (#[trigger] r@[i + 1]).0 == r@[i].1,
        r@.len() > 0 ==> r@[r@.len() - 1].1 == n,
{
    let mut r: Vec<(usize, usize)> = Vec::new();
    let mut start: usize = 0;
    while start < n
        invariant
            start <= n,
            chunk_size >= 1,
            r@.len() + wave_count(n - start, chunk_size as int) == wave_count(
                n as int,
                chunk_size as int,
            ),
            forall|i: int| 0 <= i < r@.len() ==> (#[trigger] r@[i]).0 < r@[i].1 <= start,
            forall|i: int| 0 <= i < r@.len() ==> (#[trigger] r@[i]).1 - r@[i].0 <= chunk_size,
            forall|i: int|
                0 <= i < r@.len() && (#[trigger] r@[i]).1 < n ==> r@[i].1 - r@[i].0 == chunk_size,
            r@.len() > 0 ==> r@[0].0 == 0,
            forall|i: int| 0 <= i < r@.len() - 1 ==> (#[trigger] r@[i + 1]).0 == r@[i].1,
            r@.len() > 0 ==> r@[r@.len() - 1].1 == start,
            r@.len() == 0 ==> start == 0,
        decreases n - start,
    {
        let end = if chunk_size > n - start {
            n
        } else {
            start + chunk_size
        };
        r.push((start, end));
        start = end;
    }
    proof {
        assert forall|i: int| 0 <= i < r@.len() - 1 implies (#[trigger] r@[i]).1 - r@[i].0
            == chunk_size by {
            assert(r@[i].1 == r@[i + 1].0);
            assert(r@[i + 1].0 < r@[i + 1].1 <= n);
        }
    }
    r
}

/// Appends to `out` the stories among `results`, in submission order,
/// dropping every failed fetch, as `successes` states.
pub fn merge_results(results: Vec<Option<Story>>, out: &mut Vec<Story>)
    ensures
        final(out)@ == old(out)@ + successes(results@),
{
    let mut rs = results;
    while rs.len() > 0
        invariant
            out@ + successes(rs@) == old(out)@ + successes(results@),
        decreases rs.len(),
    {
        let ghost rs_pre = rs@;
        let first = rs.remove(0);
        proof {
            assert(rs@ =~= rs_pre.subrange(1, rs_pre.len() as int));
        }
        match first {
            Some(story) => {
                let ghost out_pre = out@;
                out.push(story);
                proof {
                    assert(out@ + successes(rs@) =~= out_pre + successes(rs_pre));
                }
            },
            None => {
                proof {
                    assert(out@ + successes(rs@) =~= out@ + successes(rs_pre));
                }
            },
        }
    }
    proof {
        assert(out@ =~= out@ + successes(rs@));
    }
}

/// Merging wave by wave is the same as merging the whole batch at once:
/// the in-order merge distributes over concatenation of outcome sequences,
/// so a batch resolved in consecutive waves keeps batch-wide order.
pub proof fn lemma_successes_concat(a: Seq<Option<Story>>, b: Seq<Option<Story>>)
    ensures
        successes(a + b) == successes(a) + successes(b),
    decreases a.len(),
{
    if a.len() == 0 {
        assert(a + b =~= b);
        assert(successes(a) + successes(b) =~= successes(b));
    } else {
        let tail = a.subrange(1, a.len() as int);
        lemma_successes_concat(tail, b);
        assert((a + b).subrange(1, (a + b).len() as int) =~= tail + b);
        assert((a + b)[0] == a[0]);
        assert(successes(a) + successes(b) =~= successes(a + b));
    }
}

/// Every fetch of a wave succeeded: the output holds one story per
/// outcome, in submission order.
pub proof fn lemma_successes_all_some(rs: Seq<Option<Story>>)
    requires
        forall|i: int| 0 <= i < rs.len() ==> rs[i] is Some,
    ensures
        successes(rs).len() == rs.len(),
        forall|i: int| 0 <= i < rs.len() ==> successes(rs)[i] == rs[i]->0,
    decreases rs.len(),
{
    if rs.len() > 0 {
        let tail = rs.subrange(1, rs.len() as int);
        lemma_successes_all_some(tail);
        assert forall|i: int| 0 <= i < rs.len() implies successes(rs)[i] == rs[i]->0 by {
            if i > 0 {
                assert(successes(rs)[i] == successes(tail)[i - 1]);
                assert(tail[i - 1] == rs[i]);
            }
        }
    }
}

/// If every fetch in a wave succeeds, the resolved stories match the
/// submitted identifier sequence element for element, whatever order the
/// fetches completed in on the wire.
pub proof fn lemma_all_success_keeps_order(rs: Seq<Option<Story>>, ids: Seq<i64>)
    requires
        rs.len() == ids.len(),
        forall|i: int| 0 <= i < rs.len() ==> (#[trigger] rs[i]) is Some && rs[i]->0.id == ids[i],
    ensures
        successes(rs).len() == ids.len(),
        forall|i: int| 0 <= i < ids.len() ==> successes(rs)[i].id == ids[i],
{
    assert forall|i: int| 0 <= i < rs.len() implies rs[i] is Some by {
        assert(rs[i] is Some && rs[i]->0.id == ids[i]);
    }
    lemma_successes_all_some(rs);
}

/// If exactly one fetch of a wave fails and the rest succeed, the output
/// is the input with that one element removed and every other element's
/// relative order kept.
pub proof fn lemma_failure_dropped(rs: Seq<Option<Story>>, k: int)
    requires
        0 <= k < rs.len(),
        rs[k] is None,
        forall|i: int| 0 <= i < rs.len() && i != k ==> rs[i] is Some,
    ensures
        successes(rs).len() == rs.len() - 1,
        forall|i: int| 0 <= i < k ==> successes(rs)[i] == rs[i]->0,
        forall|i: int| k <= i < rs.len() - 1 ==> successes(rs)[i] == rs[i + 1]->0,
    decreases rs.len(),
{
    let tail = rs.subrange(1, rs.len() as int);
    if k == 0 {
        assert forall|j: int| 0 <= j < tail.len() implies tail[j] is Some by {
            assert(tail[j] == rs[j + 1]);
        }
        lemma_successes_all_some(tail);
        assert forall|i: int| 0 <= i < rs.len() - 1 implies successes(rs)[i] == rs[i + 1]->0 by {
            assert(successes(rs)[i] == successes(tail)[i]);
            assert(tail[i] == rs[i + 1]);
        }
    } else {
        assert(tail[k - 1] == rs[k]);
        assert forall|j: int| 0 <= j < tail.len() && j != k - 1 implies tail[j] is Some by {
            assert(tail[j] == rs[j + 1]);
        }
        lemma_failure_dropped(tail, k - 1);
        assert forall|i: int| 0 <= i < k implies successes(rs)[i] == rs[i]->0 by {
            if i > 0 {
                assert(successes(rs)[i] == successes(tail)[i - 1]);
                assert(tail[i - 1] == rs[i]);
            }
        }
        assert forall|i: int| k <= i < rs.len() - 1 implies successes(rs)[i] == rs[i + 1]->0 by {
            assert(successes(rs)[i] == successes(tail)[i - 1]);
            assert(tail[i] == rs[i + 1]);
        }
    }
}

} // verus!
