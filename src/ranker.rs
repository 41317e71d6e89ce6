use vstd::prelude::*;
use vstd::set_lib::{lemma_int_range, lemma_len_subset, set_int_range};
use crate::snapshot::{ProcessSample, ProcessView, samples_view};

verus! {

/// Whether position `i` of `s` is ranked ahead of position `j`: higher CPU
/// usage first, and on equal usage the earlier position first.
pub open spec fn ranks_before(s: Seq<ProcessView>, i: int, j: int) -> bool {
    s[i].cpu_centi > s[j].cpu_centi || (s[i].cpu_centi == s[j].cpu_centi && i < j)
}

/// `idx` picks, in ranking order, the `idx.len()` processes of `s` that rank
/// highest: its positions are valid and strictly ranked one after the other,
/// and every position that it leaves out ranks after all that it takes.
pub open spec fn is_top_ranking(s: Seq<ProcessView>, idx: Seq<int>) -> bool {
    &&& forall|k: int| 0 <= k < idx.len() ==> 0 <= #[trigger] idx[k] < s.len()
    &&& forall|k: int, l: int|
        0 <= k < l < idx.len() ==> ranks_before(s, #[trigger] idx[k], #[trigger] idx[l])
    &&& forall|j: int|
        0 <= j < s.len() && !idx.contains(j) ==> forall|k: int|
            0 <= k < idx.len() ==> ranks_before(s, #[trigger] idx[k], j)
}

/// `r` is the stable descending ranking of `s` by CPU usage, cut to `n` rows.
pub open spec fn is_ranked_view(s: Seq<ProcessView>, n: nat, r: Seq<ProcessView>) -> bool {
    &&& r.len() == if n < s.len() { n } else { s.len() }
    &&& exists|idx: Seq<int>|
        #![trigger is_top_ranking(s, idx)]
        idx.len() == r.len() && is_top_ranking(s, idx) && forall|k: int|
            0 <= k < r.len() ==> r[k] == s[#[trigger] idx[k]]
}

/// A ranked view holds at most `n` rows, each of them a row of the input
/// taken from its own position, with CPU usage never rising from one row to
/// the next.
pub proof fn lemma_ranked_view_draws_from_input(s: Seq<ProcessView>, n: nat, r: Seq<ProcessView>)
    requires
        is_ranked_view(s, n, r),
    ensures
        r.len() <= n,
        r.len() <= s.len(),
        forall|k: int| 0 <= k < r.len() ==> s.contains(#[trigger] r[k]),
        exists|idx: Seq<int>|
            idx.len() == r.len() && (forall|k: int, l: int|
                0 <= k < l < idx.len() ==> #[trigger] idx[k] != #[trigger] idx[l]) && (forall|k: int|
                0 <= k < idx.len() ==> 0 <= #[trigger] idx[k] < s.len() && r[k] == s[idx[k]]),
        forall|k: int| 0 <= k < r.len() - 1 ==> r[k].cpu_centi >= #[trigger] r[k + 1].cpu_centi,
{
    let idx = choose|idx: Seq<int>|
        idx.len() == r.len() && is_top_ranking(s, idx) && forall|k: int|
            0 <= k < r.len() ==> r[k] == s[#[trigger] idx[k]];
    assert forall|k: int| 0 <= k < r.len() implies s.contains(#[trigger] r[k]) by {
        assert(r[k] == s[idx[k]]);
    }
    assert forall|k: int, l: int| 0 <= k < l < idx.len() implies #[trigger] idx[k] != #[trigger] idx[l] by {
        assert(ranks_before(s, idx[k], idx[l]));
    }
    assert forall|k: int| 0 <= k < r.len() - 1 implies r[k].cpu_centi >= #[trigger] r[k + 1].cpu_centi by {
        assert(ranks_before(s, idx[k], idx[k + 1]));
        assert(r[k] == s[idx[k]]);
        assert(r[k + 1] == s[idx[k + 1]]);
    }
}

/// The `n` processes with the highest CPU usage, highest first. Processes
/// with equal usage keep the order in which `procs` lists them. Usage is
/// compared at its full precision of hundredths of a percent, so processes
/// that differ only in the fraction are still told apart.
pub fn rank_processes(procs: &Vec<ProcessSample>, n: usize) -> (r: Vec<ProcessSample>)
    ensures
        is_ranked_view(samples_view(procs@), n as nat, samples_view(r@)),
        r.len() <= n,
        forall|k: int| 0 <= k < r.len() - 1 ==> r[k].cpu_centi >= #[trigger] r[k + 1].cpu_centi,
{
    let ghost s = samples_view(procs@);
    let m = procs.len();
    let limit = if n < m { n } else { m };
    let mut taken: Vec<bool> = Vec::new();
    let mut t: usize = 0;
    while t < m
        invariant
            t <= m,
            m == procs.len(),
            taken.len() == t,
            forall|j: int| 0 <= j < t ==> !taken[j],
        decreases m - t,
    {
        taken.push(false);
        t = t + 1;
    }
    let mut out: Vec<ProcessSample> = Vec::new();
    let ghost mut idx: Seq<int> = Seq::empty();
    while out.len() < limit
        invariant
            s == samples_view(procs@),
            m == procs.len(),
            limit <= m,
            taken.len() == m,
            out.len() == idx.len(),
            out.len() <= limit,
            forall|j: int| 0 <= j < m ==> (taken[j] <==> idx.contains(j)),
            is_top_ranking(s, idx),
            forall|k: int| 0 <= k < out.len() ==> out@[k]@ == s[#[trigger] idx[k]],
        decreases limit - out.len(),
    {
        let mut best: usize = m;
        let mut j: usize = 0;
        while j < m
            invariant
                s == samples_view(procs@),
                m == procs.len(),
                taken.len() == m,
                j <= m,
                best == m || (best < j && !taken[best as int]),
                best == m ==> forall|i: int| 0 <= i < j ==> taken[i],
                best < m ==> forall|i: int|
                    0 <= i < j && !taken[i] && i != best ==> ranks_before(s, best as int, i),
            decreases m - j,
        {
            if !taken[j] && (best == m || procs[j].cpu_centi > procs[best].cpu_centi) {
                best = j;
            }
            j = j + 1;
        }
        if best == m {
            proof {
                assert(set_int_range(0, m as int).subset_of(idx.to_set()));
                lemma_int_range(0, m as int);
                idx.lemma_cardinality_of_set();
                lemma_len_subset(set_int_range(0, m as int), idx.to_set());
                assert(false);
            }
        }
        proof {
            let b = best as int;
            assert(!idx.contains(b));
            let idx2 = idx.push(b);
            assert forall|j2: int| 0 <= j2 < s.len() && !idx2.contains(j2) implies forall|k: int|
                0 <= k < idx2.len() ==> ranks_before(s, #[trigger] idx2[k], j2) by {
                if idx.contains(j2) {
                    let k = choose|k: int| 0 <= k < idx.len() && idx[k] == j2;
                    assert(idx2[k] == j2);
                }
                assert(!taken[j2]);
                assert forall|k: int| 0 <= k < idx2.len() implies ranks_before(s, #[trigger] idx2[k], j2) by {
                    if k < idx.len() {
                        assert(idx2[k] == idx[k]);
                    }
                }
            }
            assert forall|k: int, l: int|
                0 <= k < l < idx2.len() implies ranks_before(s, #[trigger] idx2[k], #[trigger] idx2[l]) by {
                assert(idx2[k] == idx[k]);
                if l < idx.len() {
                    assert(idx2[l] == idx[l]);
                }
            }
            assert forall|j2: int| 0 <= j2 < m implies ((j2 == b || taken[j2]) <==> idx2.contains(j2)) by {
                assert(taken[j2] <==> idx.contains(j2));
                if idx2.contains(j2) {
                    let k = choose|k: int| 0 <= k < idx2.len() && idx2[k] == j2;
                    if k < idx.len() {
                        assert(idx[k] == j2);
                    }
                }
                if taken[j2] {
                    let k = choose|k: int| 0 <= k < idx.len() && idx[k] == j2;
                    assert(idx2[k] == j2);
                }
                if j2 == b {
                    assert(idx2[idx.len() as int] == b);
                }
            }
            idx = idx2;
        }
        taken.set(best, true);
        out.push(procs[best].duplicate());
        proof {
            assert forall|k: int| 0 <= k < out.len() implies out@[k]@ == s[#[trigger] idx[k]] by {
                if k < out.len() - 1 {
                } else {
                    assert(idx[k] == best as int);
                }
            }
        }
    }
    proof {
        let rv = samples_view(out@);
        assert(out.len() == limit);
        assert forall|k: int| 0 <= k < rv.len() implies rv[k] == s[#[trigger] idx[k]] by {
            assert(out@[k]@ == s[idx[k]]);
        }
        assert(is_top_ranking(s, idx));
        assert forall|k: int| 0 <= k < out.len() - 1 implies out[k].cpu_centi >= #[trigger] out[k + 1].cpu_centi by {
            assert(ranks_before(s, idx[k], idx[k + 1]));
            assert(out@[k]@ == s[idx[k]]);
            assert(out@[k + 1]@ == s[idx[k + 1]]);
        }
    }
    out
}

} // verus!
