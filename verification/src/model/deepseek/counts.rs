//! Route counts and the offsets that they give.
//!
//! Routes are packed expert by expert, or rank by rank. A kernel counts the
//! routes of each; the sums of the counts before an expert are the place where
//! its routes start.

use vstd::prelude::*;

verus! {

/// Why counts cannot be used.
#[derive(Clone, Copy, Debug, PartialEq, Eq, Structural)]
pub enum CountError {
    /// A count or an offset is below zero.
    Negative,
    /// An offset is too large for a kernel argument.
    OffsetOverflow,
    /// A scaled extent cannot be counted.
    ExtentOverflow,
}

/// Sum of the first `n` counts.
pub open spec fn prefix_sum(counts: Seq<i32>, n: int) -> int
    decreases n,
{
    if n <= 0 {
        0
    } else {
        prefix_sum(counts, n - 1) + counts[n - 1]
    }
}

/// Number of all routes.
pub open spec fn total_routes(counts: Seq<i32>) -> int {
    prefix_sum(counts, counts.len() as int)
}

/// No count is below zero.
pub open spec fn none_negative(counts: Seq<i32>) -> bool {
    forall|i: int| 0 <= i < counts.len() ==> 0 <= #[trigger] counts[i]
}

/// What is wrong with the counts at `i`, where anything is.
pub open spec fn fault_at(counts: Seq<i32>, i: int) -> Option<CountError> {
    if counts[i] < 0 {
        Some(CountError::Negative)
    } else if prefix_sum(counts, i) > i32::MAX {
        Some(CountError::OffsetOverflow)
    } else {
        None
    }
}

/// The counts give offsets.
pub open spec fn countable(counts: Seq<i32>) -> bool {
    forall|i: int| 0 <= i < counts.len() ==> (#[trigger] fault_at(counts, i)) is None
}

/// `e` is the first thing that is wrong with the counts.
pub open spec fn is_first_fault(counts: Seq<i32>, e: CountError) -> bool {
    exists|i: int|
        0 <= i < counts.len() && #[trigger] fault_at(counts, i) == Some(e) && forall|j: int|
            0 <= j < i ==> (#[trigger] fault_at(counts, j)) is None
}

/// Where the routes of each start.
pub open spec fn offsets_of(counts: Seq<i32>) -> Seq<i32> {
    Seq::new(counts.len(), |i: int| prefix_sum(counts, i) as i32)
}

/// Sums of counts that are not negative do not fall.
pub proof fn lemma_sums_ascend(counts: Seq<i32>, i: int, j: int)
    requires
        none_negative(counts),
        0 <= i <= j <= counts.len(),
    ensures
        0 <= prefix_sum(counts, i) <= prefix_sum(counts, j),
    decreases j,
{
    if i < j {
        lemma_sums_ascend(counts, i, j - 1);
        assert(counts[j - 1] >= 0);
    } else if i > 0 {
        lemma_sums_ascend(counts, i - 1, j - 1);
        assert(counts[j - 1] >= 0);
    }
}

proof fn lemma_countable_is_not_negative(counts: Seq<i32>)
    requires
        countable(counts),
    ensures
        none_negative(counts),
{
    assert forall|i: int| 0 <= i < counts.len() implies 0 <= #[trigger] counts[i] by {
        assert(fault_at(counts, i) is None);
    }
}

/// The routes of two do not overlap: those of the earlier end where, or before,
/// those of the later start. None reaches past the total.
pub proof fn law_routes_do_not_overlap(counts: Seq<i32>, i: int, j: int)
    requires
        countable(counts),
        0 <= i < j < counts.len(),
    ensures
        offsets_of(counts)[i] + counts[i] <= offsets_of(counts)[j],
        offsets_of(counts)[j] + counts[j] <= total_routes(counts),
{
    lemma_countable_is_not_negative(counts);
    assert(fault_at(counts, i) is None);
    assert(fault_at(counts, j) is None);
    lemma_sums_ascend(counts, i + 1, j);
    lemma_sums_ascend(counts, j + 1, counts.len() as int);
    lemma_sums_ascend(counts, 0, i);
    assert(prefix_sum(counts, i + 1) == prefix_sum(counts, i) + counts[i]);
    assert(prefix_sum(counts, j + 1) == prefix_sum(counts, j) + counts[j]);
}

/// Every packed place belongs to one of them.
pub proof fn law_every_place_has_an_owner(counts: Seq<i32>, at: int) -> (owner: int)
    requires
        countable(counts),
        0 <= at < total_routes(counts),
    ensures
        0 <= owner < counts.len(),
        offsets_of(counts)[owner] <= at < offsets_of(counts)[owner] + counts[owner],
{
    lemma_countable_is_not_negative(counts);
    let owner = owner_below(counts, at, counts.len() as int);
    assert(fault_at(counts, owner) is None);
    lemma_sums_ascend(counts, 0, owner);
    owner
}

proof fn owner_below(counts: Seq<i32>, at: int, n: int) -> (owner: int)
    requires
        none_negative(counts),
        0 <= n <= counts.len(),
        0 <= at < prefix_sum(counts, n),
    ensures
        0 <= owner < n,
        prefix_sum(counts, owner) <= at < prefix_sum(counts, owner) + counts[owner],
    decreases n,
{
    if at < prefix_sum(counts, n - 1) {
        owner_below(counts, at, n - 1)
    } else {
        n - 1
    }
}

/// The offsets of counts, and their sum.
pub fn dsv4_counts_to_offsets_i32(counts: &[i32]) -> (r: Result<(Vec<i32>, usize), CountError>)
    ensures
        match r {
            Ok((offsets, total)) => {
                &&& countable(counts@)
                &&& offsets@ == offsets_of(counts@)
                &&& total == total_routes(counts@)
            },
            Err(e) => is_first_fault(counts@, e),
        },
{
    let mut offsets: Vec<i32> = Vec::new();
    let mut total: usize = 0;
    let mut i: usize = 0;
    while i < counts.len()
        invariant
            i <= counts@.len(),
            total == prefix_sum(counts@, i as int),
            total <= 2 * 0x7fff_ffff,
            offsets@.len() == i,
            forall|k: int|
                0 <= k < i ==> #[trigger] offsets@[k] == prefix_sum(counts@, k) as i32,
            forall|k: int| 0 <= k < i ==> (#[trigger] fault_at(counts@, k)) is None,
        decreases counts@.len() - i,
    {
        let count: i32 = counts[i];
        if count < 0 {
            assert(fault_at(counts@, i as int) == Some(CountError::Negative));
            return Err(CountError::Negative);
        }
        if total > 0x7fff_ffff {
            assert(fault_at(counts@, i as int) == Some(CountError::OffsetOverflow));
            return Err(CountError::OffsetOverflow);
        }
        assert(fault_at(counts@, i as int) is None);
        offsets.push(total as i32);
        total = total + count as usize;
        i = i + 1;
    }
    proof {
        assert(offsets@ =~= offsets_of(counts@));
    }
    Ok((offsets, total))
}

/// Numbers that are not negative, as sizes.
pub open spec fn as_sizes(values: Seq<i32>) -> Seq<usize> {
    Seq::new(values.len(), |i: int| values[i] as usize)
}

fn to_sizes(values: &[i32]) -> (r: Result<Vec<usize>, CountError>)
    ensures
        match r {
            Ok(sizes) => none_negative(values@) && sizes@ == as_sizes(values@),
            Err(e) => !none_negative(values@) && e == CountError::Negative,
        },
{
    let mut sizes: Vec<usize> = Vec::new();
    let mut i: usize = 0;
    while i < values.len()
        invariant
            i <= values@.len(),
            sizes@.len() == i,
            forall|k: int| 0 <= k < i ==> 0 <= #[trigger] values@[k],
            forall|k: int| 0 <= k < i ==> #[trigger] sizes@[k] == values@[k] as usize,
        decreases values@.len() - i,
    {
        if values[i] < 0 {
            return Err(CountError::Negative);
        }
        sizes.push(values[i] as usize);
        i = i + 1;
    }
    proof {
        assert(sizes@ =~= as_sizes(values@));
    }
    Ok(sizes)
}

/// Counts as sizes.
pub fn dsv4_counts_to_usize(counts: &[i32]) -> (r: Result<Vec<usize>, CountError>)
    ensures
        match r {
            Ok(sizes) => none_negative(counts@) && sizes@ == as_sizes(counts@),
            Err(e) => !none_negative(counts@) && e == CountError::Negative,
        },
{
    to_sizes(counts)
}

/// Offsets as sizes.
pub fn dsv4_offsets_to_usize(offsets: &[i32]) -> (r: Result<Vec<usize>, CountError>)
    ensures
        match r {
            Ok(sizes) => none_negative(offsets@) && sizes@ == as_sizes(offsets@),
            Err(e) => !none_negative(offsets@) && e == CountError::Negative,
        },
{
    to_sizes(offsets)
}

/// Every value can be scaled.
pub open spec fn scalable(values: Seq<usize>, factor: usize) -> bool {
    forall|i: int| 0 <= i < values.len() ==> #[trigger] values[i] * factor <= usize::MAX
}

/// Values times a factor.
pub open spec fn scaled(values: Seq<usize>, factor: usize) -> Seq<usize> {
    Seq::new(values.len(), |i: int| (values[i] * factor) as usize)
}

/// Scales extents from rows to elements.
pub fn dsv4_scale_usize(values: &[usize], factor: usize) -> (r: Result<Vec<usize>, CountError>)
    ensures
        match r {
            Ok(out) => scalable(values@, factor) && out@ == scaled(values@, factor),
            Err(e) => !scalable(values@, factor) && e == CountError::ExtentOverflow,
        },
{
    let mut out: Vec<usize> = Vec::new();
    let mut i: usize = 0;
    while i < values.len()
        invariant
            i <= values@.len(),
            out@.len() == i,
            forall|k: int| 0 <= k < i ==> #[trigger] values@[k] * factor <= usize::MAX,
            forall|k: int| 0 <= k < i ==> #[trigger] out@[k] == (values@[k] * factor) as usize,
        decreases values@.len() - i,
    {
        match values[i].checked_mul(factor) {
            Some(n) => {
                out.push(n);
            },
            None => {
                assert(values@[i as int] * factor > usize::MAX);
                return Err(CountError::ExtentOverflow);
            },
        }
        i = i + 1;
    }
    proof {
        assert(out@ =~= scaled(values@, factor));
    }
    Ok(out)
}

/// Offsets that counts give are never negative.
pub proof fn lemma_offsets_are_not_negative(counts: Seq<i32>)
    requires
        countable(counts),
    ensures
        none_negative(counts),
        none_negative(offsets_of(counts)),
        total_routes(counts) >= 0,
{
    lemma_countable_is_not_negative(counts);
    assert forall|i: int| 0 <= i < counts.len() implies 0 <= #[trigger] offsets_of(counts)[i] by {
        lemma_sums_ascend(counts, 0, i);
        assert(fault_at(counts, i) is None);
    }
    lemma_sums_ascend(counts, 0, counts.len() as int);
}

/// Counts that are not negative keep their values as sizes, one for each.
pub proof fn law_sizes_keep_their_counts(values: Seq<i32>, i: int)
    requires
        none_negative(values),
        0 <= i < values.len(),
    ensures
        as_sizes(values).len() == values.len(),
        as_sizes(values)[i] == values[i],
{
}

} // verus!
