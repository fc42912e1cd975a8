//! Ranking of floating-point scores by their bits.

use vstd::prelude::*;

verus! {

/// The place of a single-precision value in the total order of all of them:
/// negative values below positive ones, and within one sign by magnitude.
pub open spec fn total_rank(bits: u32) -> int {
    if bits < 0x8000_0000 {
        bits as int
    } else {
        0x7fff_ffff - bits
    }
}

/// A single-precision value is neither infinite nor a NaN.
pub open spec fn is_finite(bits: u32) -> bool {
    bits / 0x80_0000 % 256 != 255
}

/// The rank of a score that can be selected: a finite one.
pub open spec fn score_rank(bits: u32) -> Option<int> {
    if is_finite(bits) {
        Some(total_rank(bits))
    } else {
        None
    }
}

/// The rank of a logit in bfloat16 where it is finite. Both zeros are equal.
pub open spec fn logit_rank(bits: u16) -> Option<int> {
    if bits / 0x80 % 256 == 255 {
        None
    } else if bits < 0x8000 {
        Some(bits as int)
    } else {
        Some(0x8000 - bits)
    }
}

/// An entry comes before another: a higher rank, or the same rank and a
/// smaller index.
pub open spec fn before(ranks: Seq<Option<int>>, i: int, j: int) -> bool {
    ranks[i]->Some_0 > ranks[j]->Some_0 || (ranks[i]->Some_0 == ranks[j]->Some_0 && i < j)
}

/// The `k` best entries among the first `n`, best first. An entry without a
/// rank is not listed.
pub open spec fn is_top(top: Seq<usize>, ranks: Seq<Option<int>>, k: nat, n: int) -> bool {
    &&& top.len() <= k
    &&& forall|i: int, j: int|
        0 <= i < j < top.len() ==> before(ranks, #[trigger] top[i] as int, #[trigger] top[j] as int)
    &&& forall|i: int|
        0 <= i < top.len() ==> (#[trigger] top[i]) < n && ranks[top[i] as int] is Some
    &&& forall|m: int|
        0 <= m < n && (#[trigger] ranks[m]) is Some ==> top.contains(m as usize) || (top.len() == k
            && all_before(top, ranks, m))
}

/// Every listed entry comes before another one.
pub open spec fn all_before(top: Seq<usize>, ranks: Seq<Option<int>>, m: int) -> bool {
    forall|i: int| 0 <= i < top.len() ==> before(ranks, #[trigger] top[i] as int, m)
}

proof fn lemma_insert_keeps_top(
    top: Seq<usize>,
    ranks: Seq<Option<int>>,
    k: nat,
    n: int,
    at: int,
    next: Seq<usize>,
)
    requires
        0 <= n < ranks.len() <= usize::MAX,
        ranks[n] is Some,
        is_top(top, ranks, k, n),
        0 <= at <= top.len(),
        forall|i: int|
            0 <= i < at ==> ranks[(#[trigger] top[i]) as int]->Some_0 >= ranks[n]->Some_0,
        at < top.len() ==> ranks[top[at] as int]->Some_0 < ranks[n]->Some_0,
        at < k,
        next == ({
            let grown = top.insert(at, n as usize);
            if grown.len() > k {
                grown.subrange(0, k as int)
            } else {
                grown
            }
        }),
    ensures
        is_top(next, ranks, k, n + 1),
{
    let grown = top.insert(at, n as usize);
    assert forall|i: int| 0 <= i < next.len() implies #[trigger] next[i] == (if i < at {
        top[i]
    } else if i == at {
        n as usize
    } else {
        top[i - 1]
    }) by {
        assert(next[i] == grown[i]);
    }
    assert forall|i: int, j: int| 0 <= i < j < next.len() implies before(
        ranks,
        #[trigger] next[i] as int,
        #[trigger] next[j] as int,
    ) by {
        if j < at {
            assert(before(ranks, top[i] as int, top[j] as int));
        } else if j == at {
            assert(top[i] < n);
        } else if i < at {
            assert(before(ranks, top[i] as int, top[j - 1] as int));
        } else if i == at {
            if j - 1 > at {
                assert(before(ranks, top[at] as int, top[j - 1] as int));
            }
        } else {
            assert(before(ranks, top[i - 1] as int, top[j - 1] as int));
        }
    }
    assert forall|i: int| 0 <= i < next.len() implies (#[trigger] next[i]) < n + 1
        && ranks[next[i] as int] is Some by {
        if i < at {
            assert(top[i] < n);
        } else if i > at {
            assert(top[i - 1] < n);
        }
    }
    assert forall|m: int| 0 <= m < n + 1 && (#[trigger] ranks[m]) is Some implies next.contains(
        m as usize,
    ) || (next.len() == k && all_before(next, ranks, m)) by {
        if m == n {
            assert(next[at] == n as usize);
        } else if top.contains(m as usize) {
            let i = choose|i: int| 0 <= i < top.len() && top[i] == m as usize;
            if i < at {
                assert(next[i] == m as usize);
            } else if i + 1 < next.len() {
                assert(next[i + 1] == m as usize);
            } else {
                assert(next.len() == k && i == k - 1);
                assert forall|j: int| 0 <= j < next.len() implies before(
                    ranks,
                    #[trigger] next[j] as int,
                    m,
                ) by {
                    if j < at {
                        assert(before(ranks, top[j] as int, top[i] as int));
                    } else if j == at {
                        if at < i {
                            assert(before(ranks, top[at] as int, top[i] as int));
                        }
                    } else {
                        assert(before(ranks, top[j - 1] as int, top[i] as int));
                    }
                }
            }
        } else {
            assert(top.len() == k && all_before(top, ranks, m));
            assert forall|j: int| 0 <= j < next.len() implies before(
                ranks,
                #[trigger] next[j] as int,
                m,
            ) by {
                if j < at {
                    assert(before(ranks, top[j] as int, m));
                } else if j == at {
                    assert(before(ranks, top[at] as int, m));
                } else {
                    assert(before(ranks, top[j - 1] as int, m));
                }
            }
        }
    }
}

/// The best `k` entries, best first.
fn best(ranks: &Vec<Option<i64>>, k: usize) -> (top: Vec<usize>)
    ensures
        is_top(top@, widened(ranks@), k as nat, ranks@.len() as int),
{
    let mut top: Vec<usize> = Vec::new();
    let mut n: usize = 0;
    let ghost wide = widened(ranks@);
    while n < ranks.len()
        invariant
            n <= ranks@.len(),
            wide == widened(ranks@),
            is_top(top@, wide, k as nat, n as int),
        decreases ranks@.len() - n,
    {
        if let Some(rank) = ranks[n] {
            let mut at: usize = 0;
            proof {
                assert(wide[n as int] == Some(rank as int));
            }
            while at < top.len() && rank <= rank_at(ranks, top[at])
                invariant
                    at <= top@.len(),
                    wide == widened(ranks@),
                    n < ranks@.len(),
                    is_top(top@, wide, k as nat, n as int),
                    forall|i: int|
                        0 <= i < at ==> wide[(#[trigger] top@[i]) as int]->Some_0 >= rank,
                decreases top@.len() - at,
            {
                at = at + 1;
            }
            let ghost kept = top@;
            if at < k {
                top.insert(at, n);
                if top.len() > k {
                    top.truncate(k);
                }
                proof {
                    let grown = kept.insert(at as int, n);
                    assert(top@ =~= (if grown.len() > k {
                        grown.subrange(0, k as int)
                    } else {
                        grown
                    }));
                    lemma_insert_keeps_top(kept, wide, k as nat, n as int, at as int, top@);
                }
            } else {
                proof {
                    assert(top@.len() == k);
                    assert forall|i: int| 0 <= i < top@.len() implies before(
                        wide,
                        #[trigger] top@[i] as int,
                        n as int,
                    ) by {
                        assert(top@[i] < n);
                    }
                    assert(all_before(top@, wide, n as int));
                }
            }
        } else {
            proof {
                assert(wide[n as int] is None);
            }
        }
        n = n + 1;
    }
    top
}

/// Ranks as mathematical integers.
spec fn widened(ranks: Seq<Option<i64>>) -> Seq<Option<int>> {
    Seq::new(
        ranks.len(),
        |i: int|
            match ranks[i] {
                Some(r) => Some(r as int),
                None => None,
            },
    )
}

fn rank_at(ranks: &Vec<Option<i64>>, i: usize) -> (rank: i64)
    requires
        i < ranks@.len(),
        ranks@[i as int] is Some,
    ensures
        Some(rank) == ranks@[i as int],
{
    match ranks[i] {
        Some(rank) => rank,
        None => 0,
    }
}

/// The ranks of scores.
pub open spec fn score_ranks(scores: Seq<u32>) -> Seq<Option<int>> {
    Seq::new(scores.len(), |i: int| score_rank(scores[i]))
}

/// The ranks of logits.
pub open spec fn logit_ranks(logits: Seq<u16>) -> Seq<Option<int>> {
    Seq::new(logits.len(), |i: int| logit_rank(logits[i]))
}

/// Selects the `topk` best scored blocks, best first. Scores are given by
/// their single-precision bits; one that is not finite is not selected.
pub fn select_blocks(scores: &[u32], topk: usize) -> (selected: Vec<usize>)
    ensures
        is_top(selected@, score_ranks(scores@), topk as nat, scores@.len() as int),
{
    let mut ranks: Vec<Option<i64>> = Vec::new();
    let total: usize = scores.len();
    let mut i: usize = 0;
    while i < total
        invariant
            i <= total,
            total == scores@.len(),
            ranks@.len() == i,
            forall|j: int|
                0 <= j < i ==> widened(ranks@)[j] == #[trigger] score_ranks(scores@)[j],
        decreases total - i,
    {
        let bits: u32 = scores[i];
        let rank: Option<i64> = if bits / 0x80_0000 % 256 == 255 {
            None
        } else {
            Some(total_rank_of(bits))
        };
        let ghost kept = ranks@;
        ranks.push(rank);
        proof {
            assert forall|j: int| 0 <= j < i + 1 implies widened(ranks@)[j]
                == #[trigger] score_ranks(scores@)[j] by {
                if j < i {
                    assert(widened(kept)[j] == score_ranks(scores@)[j]);
                    assert(ranks@[j] == kept[j]);
                }
            }
        }
        i = i + 1;
    }
    proof {
        assert(widened(ranks@) =~= score_ranks(scores@));
    }
    best(&ranks, topk)
}

/// The indices of the `k` highest logits, highest first. Logits are given by
/// their bfloat16 bits; one that is not finite is left out.
pub fn top_logits(logits: &[u16], k: usize) -> (top: Vec<usize>)
    ensures
        is_top(top@, logit_ranks(logits@), k as nat, logits@.len() as int),
{
    let mut ranks: Vec<Option<i64>> = Vec::new();
    let total: usize = logits.len();
    let mut i: usize = 0;
    while i < total
        invariant
            i <= total,
            total == logits@.len(),
            ranks@.len() == i,
            forall|j: int|
                0 <= j < i ==> widened(ranks@)[j] == #[trigger] logit_ranks(logits@)[j],
        decreases total - i,
    {
        let bits: u16 = logits[i];
        let rank: Option<i64> = if bits / 0x80 % 256 == 255 {
            None
        } else if bits < 0x8000 {
            Some(bits as i64)
        } else {
            Some(0x8000 - bits as i64)
        };
        let ghost kept = ranks@;
        ranks.push(rank);
        proof {
            assert forall|j: int| 0 <= j < i + 1 implies widened(ranks@)[j]
                == #[trigger] logit_ranks(logits@)[j] by {
                if j < i {
                    assert(widened(kept)[j] == logit_ranks(logits@)[j]);
                    assert(ranks@[j] == kept[j]);
                }
            }
        }
        i = i + 1;
    }
    proof {
        assert(widened(ranks@) =~= logit_ranks(logits@));
    }
    best(&ranks, k)
}

fn total_rank_of(bits: u32) -> (rank: i64)
    ensures
        rank == total_rank(bits),
{
    if bits < 0x8000_0000 {
        bits as i64
    } else {
        0x7fff_ffff - bits as i64
    }
}

/// The index of the greatest value in the total order, the last of them; zero
/// where there is no value. Values are given by their single-precision bits.
pub fn argmax(values: &[u32]) -> (at: usize)
    ensures
        values@.len() == 0 ==> at == 0,
        values@.len() > 0 ==> at < values@.len(),
        forall|i: int|
            0 <= i < values@.len() ==> total_rank(#[trigger] values@[i]) <= total_rank(
                values@[at as int],
            ),
        forall|i: int|
            at < i < values@.len() ==> total_rank(#[trigger] values@[i]) < total_rank(
                values@[at as int],
            ),
{
    let total: usize = values.len();
    let mut at: usize = 0;
    let mut i: usize = 0;
    while i < total
        invariant
            i <= total,
            total == values@.len(),
            total > 0 ==> at < total,
            total == 0 ==> at == 0,
            i == 0 ==> at == 0,
            i > 0 ==> at < i,
            forall|j: int|
                0 <= j < i ==> total_rank(#[trigger] values@[j]) <= total_rank(
                    values@[at as int],
                ),
            forall|j: int|
                at < j < i ==> total_rank(#[trigger] values@[j]) < total_rank(
                    values@[at as int],
                ),
        decreases total - i,
    {
        if total_rank_of(values[i]) >= total_rank_of(values[at]) {
            at = i;
        }
        i = i + 1;
    }
    at
}

/// There is one list of best entries.
pub proof fn law_top_is_unique(a: Seq<usize>, b: Seq<usize>, ranks: Seq<Option<int>>, k: nat)
    requires
        ranks.len() <= usize::MAX,
        is_top(a, ranks, k, ranks.len() as int),
        is_top(b, ranks, k, ranks.len() as int),
    ensures
        a == b,
{
    let n = if a.len() <= b.len() {
        a.len() as int
    } else {
        b.len() as int
    };
    lemma_same_prefix(a, b, ranks, k, n);
    lemma_not_longer(a, b, ranks, k);
    lemma_not_longer(b, a, ranks, k);
    assert(a =~= b);
}

/// A list for a smaller bound is the beginning of one for a greater bound.
pub proof fn law_top_extends(
    a: Seq<usize>,
    b: Seq<usize>,
    ranks: Seq<Option<int>>,
    k: nat,
    more: nat,
)
    requires
        ranks.len() <= usize::MAX,
        k <= more,
        is_top(a, ranks, k, ranks.len() as int),
        is_top(b, ranks, more, ranks.len() as int),
    ensures
        a.len() <= b.len(),
        a == b.subrange(0, a.len() as int),
{
    let n = ranks.len() as int;
    let cut = if b.len() > k {
        b.subrange(0, k as int)
    } else {
        b
    };
    assert(is_top(cut, ranks, k, n)) by {
        assert forall|i: int, j: int| 0 <= i < j < cut.len() implies before(
            ranks,
            #[trigger] cut[i] as int,
            #[trigger] cut[j] as int,
        ) by {
            assert(before(ranks, b[i] as int, b[j] as int));
        }
        assert forall|i: int| 0 <= i < cut.len() implies (#[trigger] cut[i]) < n
            && ranks[cut[i] as int] is Some by {
            assert(b[i] < n);
        }
        assert forall|m: int| 0 <= m < n && (#[trigger] ranks[m]) is Some implies cut.contains(
            m as usize,
        ) || (cut.len() == k && all_before(cut, ranks, m)) by {
            if b.contains(m as usize) {
                let i = choose|i: int| 0 <= i < b.len() && b[i] == m as usize;
                if i < cut.len() {
                    assert(cut[i] == m as usize);
                } else {
                    assert forall|j: int| 0 <= j < cut.len() implies before(
                        ranks,
                        #[trigger] cut[j] as int,
                        m,
                    ) by {
                        assert(before(ranks, b[j] as int, b[i] as int));
                    }
                }
            } else {
                assert(all_before(b, ranks, m));
                assert forall|j: int| 0 <= j < cut.len() implies before(
                    ranks,
                    #[trigger] cut[j] as int,
                    m,
                ) by {
                    assert(before(ranks, b[j] as int, m));
                }
            }
        }
    }
    law_top_is_unique(a, cut, ranks, k);
    assert(a =~= b.subrange(0, a.len() as int));
}

proof fn lemma_not_longer(a: Seq<usize>, b: Seq<usize>, ranks: Seq<Option<int>>, k: nat)
    requires
        is_top(a, ranks, k, ranks.len() as int),
        is_top(b, ranks, k, ranks.len() as int),
        forall|i: int| 0 <= i < a.len() && i < b.len() ==> a[i] == b[i],
    ensures
        a.len() <= b.len(),
{
    if a.len() > b.len() {
        let n = b.len() as int;
        let c = a[n];
        assert(ranks[c as int] is Some);
        assert(b.contains(c));
        let i = choose|i: int| 0 <= i < b.len() && b[i] == c;
        assert(a[i] == c);
        assert(before(ranks, a[i] as int, a[n] as int));
    }
}

proof fn lemma_same_prefix(a: Seq<usize>, b: Seq<usize>, ranks: Seq<Option<int>>, k: nat, n: int)
    requires
        is_top(a, ranks, k, ranks.len() as int),
        is_top(b, ranks, k, ranks.len() as int),
        0 <= n <= a.len(),
        n <= b.len(),
    ensures
        forall|i: int| 0 <= i < n ==> a[i] == b[i],
    decreases n,
{
    if n > 0 {
        lemma_same_prefix(a, b, ranks, k, n - 1);
        lemma_not_before(a, b, ranks, k, n - 1);
        lemma_not_before(b, a, ranks, k, n - 1);
        assert(a[n - 1] == b[n - 1]);
    }
}

proof fn lemma_not_before(a: Seq<usize>, b: Seq<usize>, ranks: Seq<Option<int>>, k: nat, n: int)
    requires
        is_top(a, ranks, k, ranks.len() as int),
        is_top(b, ranks, k, ranks.len() as int),
        0 <= n < a.len(),
        n < b.len(),
        forall|i: int| 0 <= i < n ==> a[i] == b[i],
    ensures
        !before(ranks, a[n] as int, b[n] as int),
{
    if before(ranks, a[n] as int, b[n] as int) {
        let c = a[n];
        assert(ranks[c as int] is Some);
        if b.contains(c) {
            let i = choose|i: int| 0 <= i < b.len() && b[i] == c;
            if i < n {
                assert(before(ranks, a[i] as int, a[n] as int));
            } else if i > n {
                assert(before(ranks, b[n] as int, b[i] as int));
            }
        } else {
            assert(all_before(b, ranks, c as int));
            assert(before(ranks, b[n] as int, c as int));
        }
    }
}

/// Scores are ranked by their value: any that is not negative above any that is,
/// the larger magnitude above the smaller among those that are not negative, and
/// below it among those that are. A score is left out exactly where its magnitude
/// is that of an infinity or a NaN.
pub proof fn law_scores_are_ranked_by_value(a: u32, b: u32)
    ensures
        score_rank(a) is Some <==> a % 0x8000_0000 < 0x7f80_0000,
        score_rank(a) is Some && score_rank(b) is Some ==> {
            let x = score_rank(a)->Some_0;
            let y = score_rank(b)->Some_0;
            &&& a < 0x8000_0000 && b >= 0x8000_0000 ==> x > y
            &&& a < 0x8000_0000 && b < 0x8000_0000 ==> (x > y <==> a > b)
            &&& a >= 0x8000_0000 && b >= 0x8000_0000 ==> (x > y <==> a % 0x8000_0000 < b
                % 0x8000_0000)
            &&& x == y <==> a == b
        },
{
}

/// Logits are ranked by their value, and both zeros alike. A logit is left out
/// exactly where its magnitude is that of an infinity or a NaN.
pub proof fn law_logits_are_ranked_by_value(a: u16, b: u16)
    ensures
        logit_rank(a) is Some <==> a % 0x8000 < 0x7f80,
        logit_rank(a) is Some && logit_rank(b) is Some ==> {
            let x = logit_rank(a)->Some_0;
            let y = logit_rank(b)->Some_0;
            &&& a < 0x8000 && b >= 0x8000 ==> (x > y <==> a % 0x8000 != 0 || b % 0x8000 != 0)
            &&& a < 0x8000 && b < 0x8000 ==> (x > y <==> a > b)
            &&& a >= 0x8000 && b >= 0x8000 ==> (x > y <==> a % 0x8000 < b % 0x8000)
            &&& x == y <==> a == b || (a % 0x8000 == 0 && b % 0x8000 == 0)
        },
{
}

} // verus!
