//! The verified half of worktree management: reading the porcelain
//! worktree listing.  Creating, snapshotting and removing worktrees is
//! process and file I/O and stays with the caller.

use vstd::prelude::*;

use crate::text::{lines, spec_lines, spec_starts_with, starts_with};

verus! {

/// How many worktrees a selection keeps.
pub open spec fn count_kept(flags: Seq<bool>) -> int
    decreases flags.len(),
{
    if flags.len() == 0 {
        0
    } else {
        count_kept(flags.drop_last()) + if flags.last() {
            0int
        } else {
            1int
        }
    }
}

/// How many creation stamps are at or past the threshold.
pub open spec fn count_fresh(created: Seq<i64>, threshold: i64) -> int
    decreases created.len(),
{
    if created.len() == 0 {
        0
    } else {
        count_fresh(created.drop_last(), threshold) + if created.last() >= threshold {
            1int
        } else {
            0int
        }
    }
}

proof fn lemma_count_kept_update(s: Seq<bool>, j: int)
    requires
        0 <= j < s.len(),
        !s[j],
    ensures
        count_kept(s.update(j, true)) == count_kept(s) - 1,
    decreases s.len(),
{
    if j == s.len() - 1 {
        assert(s.update(j, true).drop_last() =~= s.drop_last());
    } else {
        assert(s.update(j, true).drop_last() =~= s.drop_last().update(j, true));
        lemma_count_kept_update(s.drop_last(), j);
        assert(s.update(j, true).last() == s.last());
    }
}

proof fn lemma_count_kept_pos(s: Seq<bool>)
    requires
        count_kept(s) > 0,
    ensures
        exists|j: int| 0 <= j < s.len() && !s[j],
    decreases s.len(),
{
    if s.len() > 0 {
        if s.last() {
            lemma_count_kept_pos(s.drop_last());
            let j = choose|j: int| 0 <= j < s.drop_last().len() && !s.drop_last()[j];
            assert(!s[j]);
        } else {
            assert(!s[s.len() - 1]);
        }
    }
}

/// Which worktrees to expire, given their creation stamps: every one
/// created before `threshold` goes, and then the oldest of the rest go
/// until at most `max_count` remain.  The flags mark removal.
pub fn select_expired(created: &Vec<i64>, threshold: i64, max_count: usize) -> (r: Vec<bool>)
    ensures
        r@.len() == created@.len(),
        forall|i: int| 0 <= i < created@.len() && created@[i] < threshold ==> r@[i],
        count_kept(r@) == if count_fresh(created@, threshold) <= max_count {
            count_fresh(created@, threshold)
        } else {
            max_count as int
        },
        forall|i: int, j: int|
            0 <= i < created@.len() && 0 <= j < created@.len() && r@[i] && created@[i] >= threshold
                && !r@[j] ==> created@[i] <= created@[j],
{
    let n = created.len();
    let mut r: Vec<bool> = Vec::new();
    let mut kept: usize = 0;
    let mut i: usize = 0;
    while i < n
        invariant
            n == created@.len(),
            0 <= i <= n,
            r@.len() == i,
            forall|k: int| 0 <= k < i ==> r@[k] == (created@[k] < threshold),
            kept == count_kept(r@),
            kept == count_fresh(created@.subrange(0, i as int), threshold),
            kept <= i,
        decreases n - i,
    {
        let stale = created[i] < threshold;
        let ghost r0 = r@;
        r.push(stale);
        if !stale {
            kept = kept + 1;
        }
        i = i + 1;
        proof {
            assert(r@.drop_last() =~= r0);
            assert(created@.subrange(0, i as int).drop_last() =~= created@.subrange(0, i - 1));
        }
    }
    proof {
        assert(created@.subrange(0, n as int) =~= created@);
    }
    while kept > max_count
        invariant
            n == created@.len(),
            r@.len() == n,
            forall|k: int| 0 <= k < n && created@[k] < threshold ==> r@[k],
            kept == count_kept(r@),
            kept >= max_count || kept == count_fresh(created@, threshold),
            count_fresh(created@, threshold) >= kept,
            forall|a: int, b: int|
                0 <= a < n && 0 <= b < n && r@[a] && created@[a] >= threshold && !r@[b]
                    ==> created@[a] <= created@[b],
        decreases kept,
    {
        proof {
            lemma_count_kept_pos(r@);
        }
        // the oldest still-kept worktree goes next
        let mut best: usize = 0;
        let mut found = false;
        let mut k: usize = 0;
        while k < n
            invariant
                n == created@.len(),
                r@.len() == n,
                0 <= k <= n,
                found ==> best < n && !r@[best as int],
                forall|m: int| 0 <= m < k && !r@[m] ==> found && created@[best as int]
                    <= created@[m],
            decreases n - k,
        {
            if !r[k] {
                if !found || created[k] < created[best] {
                    best = k;
                    found = true;
                }
            }
            k = k + 1;
        }
        proof {
            let j = choose|j: int| 0 <= j < r@.len() && !r@[j];
            assert(found);
        }
        let ghost r0 = r@;
        r[best] = true;
        kept = kept - 1;
        proof {
            lemma_count_kept_update(r0, best as int);
            // the newly flagged one was the minimum of everything kept, so
            // the age ordering between removed and kept still holds
            assert forall|a: int, b: int|
                0 <= a < n && 0 <= b < n && r@[a] && created@[a] >= threshold && !r@[b] implies
                created@[a] <= created@[b] by {
                if a != best as int {
                    assert(r0[a]);
                }
                assert(!r0[b]);
            }
        }
    }
    r
}

/// The worktree paths named by `git worktree list --porcelain`: what
/// follows `worktree ` on each line that begins so.
pub open spec fn spec_worktree_paths(ls: Seq<Seq<char>>) -> Seq<Seq<char>>
    decreases ls.len(),
{
    if ls.len() == 0 {
        Seq::empty()
    } else {
        spec_worktree_paths(ls.drop_last()) + (if spec_starts_with(ls.last(), "worktree "@) {
            seq![ls.last().skip("worktree "@.len() as int)]
        } else {
            Seq::<Seq<char>>::empty()
        })
    }
}

/// Read the worktree paths out of the porcelain listing.
pub fn list_worktrees(list_out: &str) -> (r: Vec<String>)
    ensures
        r.deep_view() == spec_worktree_paths(spec_lines(list_out@)),
{
    let ls = lines(list_out);
    let ghost full = ls.deep_view();
    let mut out: Vec<String> = Vec::new();
    proof {
        assert(full.subrange(0, 0) =~= Seq::<Seq<char>>::empty());
        assert(out.deep_view() =~~= spec_worktree_paths(full.subrange(0, 0)));
    }
    let mut k: usize = 0;
    while k < ls.len()
        invariant
            0 <= k <= ls.len(),
            ls.deep_view() == full,
            out.deep_view() == spec_worktree_paths(full.subrange(0, k as int)),
        decreases ls.len() - k,
    {
        proof {
            assert(full.subrange(0, k + 1).drop_last() =~= full.subrange(0, k as int));
            assert(full[k as int] == ls@[k as int]@);
        }
        let line = ls[k].as_str();
        if starts_with(line, "worktree ") {
            let plen = "worktree ".unicode_len();
            let path = line.substring_char(plen, line.unicode_len());
            out.push(path.to_owned());
            proof {
                assert(out.deep_view() =~~= spec_worktree_paths(full.subrange(0, k + 1)));
            }
        } else {
            proof {
                assert(out.deep_view() =~~= spec_worktree_paths(full.subrange(0, k + 1)));
            }
        }
        k = k + 1;
    }
    proof {
        assert(full.subrange(0, full.len() as int) =~= full);
    }
    out
}

} // verus!
