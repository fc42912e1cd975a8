//! How batches of requests are routed and paged.

use vstd::prelude::*;

use crate::arith::{ceil_div, larger, saturating_product};
use crate::arith::{div_ceil, max, saturating_mul};
use crate::model::requests::PrefillBatchRequest;

verus! {

/// Pages that the metadata of a decode batch has room for.
///
/// With a longest sequence, every row of the largest batch may reach it;
/// without one, the pool decides. The room is never zero.
pub open spec fn page_capacity(
    max_batch_size: usize,
    max_seq_len: Option<usize>,
    page_size: usize,
    fallback: usize,
) -> nat {
    match max_seq_len {
        None => larger(fallback as nat, 1),
        Some(len) => saturating_product(
            larger(max_batch_size as nat, 1),
            larger(ceil_div(len as nat, larger(page_size as nat, 1)), 1),
            usize::MAX as nat,
        ),
    }
}

/// Pages that the metadata of a decode batch has room for.
pub fn decode_metadata_page_capacity(
    max_batch_size: usize,
    max_seq_len: Option<usize>,
    page_size: usize,
    fallback_max_total_pages: usize,
) -> (pages: usize)
    ensures
        pages == page_capacity(max_batch_size, max_seq_len, page_size, fallback_max_total_pages),
        pages > 0,
{
    match max_seq_len {
        None => max(fallback_max_total_pages, 1),
        Some(len) => {
            let rows: usize = max(max_batch_size, 1);
            let per_row: usize = max(div_ceil(len, max(page_size, 1)), 1);
            proof {
                assert(rows * per_row >= 1) by (nonlinear_arith)
                    requires
                        rows >= 1,
                        per_row >= 1,
                ;
            }
            saturating_mul(rows, per_row)
        },
    }
}

/// The metadata has a page for every token of every row, unless the room is as
/// large as can be counted.
pub proof fn law_capacity_covers_every_row(
    max_batch_size: usize,
    max_seq_len: usize,
    page_size: usize,
    fallback: usize,
)
    requires
        page_size > 0,
    ensures
        ({
            let pages = page_capacity(max_batch_size, Some(max_seq_len), page_size, fallback);
            pages == usize::MAX || pages * page_size >= max_batch_size * max_seq_len
        }),
{
    let rows = larger(max_batch_size as nat, 1) as int;
    let per_row = larger(ceil_div(max_seq_len as nat, page_size as nat), 1) as int;
    let len = max_seq_len as int;
    let size = page_size as int;
    vstd::arithmetic::div_mod::lemma_fundamental_div_mod(len, size);
    assert(ceil_div(max_seq_len as nat, page_size as nat) * size >= len) by (nonlinear_arith)
        requires
            size > 0,
            len == size * (len / size) + len % size,
            ceil_div(max_seq_len as nat, page_size as nat) == (if len % size == 0 {
                len / size
            } else {
                len / size + 1
            }),
            0 <= len % size < size,
    ;
    assert(per_row * size >= len) by (nonlinear_arith)
        requires
            per_row >= ceil_div(max_seq_len as nat, page_size as nat),
            ceil_div(max_seq_len as nat, page_size as nat) * size >= len,
            size > 0,
    ;
    assert((rows * per_row) * size >= max_batch_size * len) by (nonlinear_arith)
        requires
            rows >= max_batch_size,
            per_row * size >= len,
            len >= 0,
            max_batch_size >= 0,
    ;
}

/// A batch whose requests can be prefilled together: there are some, each has
/// tokens, and no two share a slot.
pub open spec fn is_prefill_batch(requests: Seq<PrefillBatchRequest<'_>>) -> bool {
    &&& requests.len() > 0
    &&& forall|i: int| 0 <= i < requests.len() ==> (#[trigger] requests[i]).tokens@.len() > 0
    &&& forall|i: int, j: int|
        0 <= i < j < requests.len() ==> (#[trigger] requests[i]).slot_idx != (
        #[trigger] requests[j]).slot_idx
}

/// Whether the requests can be prefilled together.
pub fn accepts_prefill_batch(requests: &[PrefillBatchRequest<'_>]) -> (accepted: bool)
    ensures
        accepted == is_prefill_batch(requests@),
{
    if requests.len() == 0 {
        return false;
    }
    let mut i: usize = 0;
    while i < requests.len()
        invariant
            i <= requests@.len(),
            requests@.len() > 0,
            forall|k: int| 0 <= k < i ==> (#[trigger] requests@[k]).tokens@.len() > 0,
            forall|k: int, j: int|
                0 <= k < j < i ==> (#[trigger] requests@[k]).slot_idx != (
                #[trigger] requests@[j]).slot_idx,
        decreases requests@.len() - i,
    {
        let request = &requests[i];
        if request.tokens.len() == 0 {
            assert(requests@[i as int].tokens@.len() == 0);
            return false;
        }
        let mut k: usize = 0;
        while k < i
            invariant
                k <= i < requests@.len(),
                *request == requests@[i as int],
                forall|j: int| 0 <= j < k
                    ==> (#[trigger] requests@[j]).slot_idx != request.slot_idx,
            decreases i - k,
        {
            if requests[k].slot_idx == request.slot_idx {
                assert(requests@[k as int].slot_idx == requests@[i as int].slot_idx);
                return false;
            }
            k = k + 1;
        }
        i = i + 1;
    }
    true
}

/// Tokens to append to the pages of a slot.
#[derive(Clone, Copy, Debug, PartialEq, Eq, Structural)]
pub struct PageAppend {
    pub slot_idx: usize,
    pub tokens: usize,
}

/// A batch needs more pages than are free.
#[derive(Clone, Copy, Debug, PartialEq, Eq, Structural)]
pub struct PageShortage {
    pub required: usize,
    pub free: usize,
}

/// Pages that the first `n` requests need.
pub open spec fn pages_needed(pages: Seq<usize>, n: int) -> int
    decreases n,
{
    if n <= 0 {
        0
    } else {
        pages_needed(pages, n - 1) + pages[n - 1]
    }
}

proof fn lemma_pages_grow(pages: Seq<usize>, i: int, n: int)
    requires
        0 <= i <= n <= pages.len(),
    ensures
        0 <= pages_needed(pages, i) <= pages_needed(pages, n),
    decreases n,
{
    if i < n {
        lemma_pages_grow(pages, i, n - 1);
    } else if i > 0 {
        lemma_pages_grow(pages, i - 1, n - 1);
    }
}

/// The pages of a batch are planned, or it cannot be prefilled together, or there
/// are too few.
pub open spec fn is_page_plan(
    r: Result<Option<Vec<PageAppend>>, PageShortage>,
    requests: Seq<PrefillBatchRequest<'_>>,
    pages: Seq<usize>,
    free: usize,
) -> bool {
    let required = pages_needed(pages, pages.len() as int);
    match r {
        Err(shortage) => {
            &&& is_prefill_batch(requests)
            &&& required > free
            &&& shortage.required == required
            &&& shortage.free == free
        },
        Ok(None) => !is_prefill_batch(requests),
        Ok(Some(appends)) => {
            &&& is_prefill_batch(requests)
            &&& required <= free
            &&& appends@.len() == requests.len()
            &&& forall|i: int|
                0 <= i < requests.len() ==> #[trigger] appends@[i] == (PageAppend {
                    slot_idx: requests[i].slot_idx,
                    tokens: requests[i].tokens@.len() as usize,
                })
        },
    }
}

/// Plans the pages of a batch; none where its requests cannot be prefilled
/// together. `pages[i]` is what request `i` needs; nothing is appended unless
/// all requests fit.
pub fn prepare_paged_prefill_batch(
    requests: &[PrefillBatchRequest<'_>],
    pages: &Vec<usize>,
    free: usize,
) -> (r: Result<Option<Vec<PageAppend>>, PageShortage>)
    requires
        is_prefill_batch(requests@) ==> pages@.len() == requests@.len() && pages_needed(
            pages@,
            pages@.len() as int,
        ) <= usize::MAX,
    ensures
        is_page_plan(r, requests@, pages@, free),
{
    if !accepts_prefill_batch(requests) {
        return Ok(None);
    }
    let mut required: usize = 0;
    let mut i: usize = 0;
    while i < pages.len()
        invariant
            i <= pages@.len(),
            required == pages_needed(pages@, i as int),
            pages_needed(pages@, pages@.len() as int) <= usize::MAX,
        decreases pages@.len() - i,
    {
        proof {
            lemma_pages_grow(pages@, i + 1, pages@.len() as int);
        }
        required = required + pages[i];
        i = i + 1;
    }
    if required > free {
        return Err(PageShortage { required, free });
    }
    let mut appends: Vec<PageAppend> = Vec::new();
    let mut k: usize = 0;
    while k < requests.len()
        invariant
            k <= requests@.len(),
            appends@.len() == k,
            forall|j: int|
                0 <= j < k ==> #[trigger] appends@[j] == (PageAppend {
                    slot_idx: requests@[j].slot_idx,
                    tokens: requests@[j].tokens@.len() as usize,
                }),
        decreases requests@.len() - k,
    {
        appends.push(
            PageAppend { slot_idx: requests[k].slot_idx, tokens: requests[k].tokens.len() },
        );
        k = k + 1;
    }
    Ok(Some(appends))
}

/// Which phase a forward pass is.
#[derive(Clone, Copy, Debug, PartialEq, Eq, Structural)]
pub enum ForwardPhase {
    Prefill,
    Decode,
}

/// The phase of a pass over so many tokens.
pub open spec fn phase_of_pass(tokens: usize) -> ForwardPhase {
    if tokens == 1 {
        ForwardPhase::Decode
    } else {
        ForwardPhase::Prefill
    }
}

/// One token is decoded, any other number is prefilled.
pub fn forward_phase(tokens: usize) -> (phase: ForwardPhase)
    ensures
        phase == phase_of_pass(tokens),
{
    if tokens == 1 {
        ForwardPhase::Decode
    } else {
        ForwardPhase::Prefill
    }
}

/// How a batch is prefilled.
#[derive(Clone, Copy, Debug, PartialEq, Eq, Structural)]
pub enum PrefillRoute {
    /// There is nothing to do.
    Nothing,
    /// Into the pages of the pool.
    Paged,
    /// Request by request.
    EachRequest,
}

/// How a batch of `requests` requests is prefilled.
pub open spec fn route_of_batch(
    requests: usize,
    uses_paged_pool: bool,
    pool_active: Option<bool>,
) -> PrefillRoute {
    if requests == 0 {
        PrefillRoute::Nothing
    } else if uses_paged_pool && pool_active == Some(true) {
        PrefillRoute::Paged
    } else {
        PrefillRoute::EachRequest
    }
}

/// Chooses how a batch of `requests` requests is prefilled: into the pool
/// where the model writes there and a pool is active.
pub fn prefill_route(requests: usize, uses_paged_pool: bool, pool_active: Option<bool>) -> (route:
    PrefillRoute)
    ensures
        route == route_of_batch(requests, uses_paged_pool, pool_active),
{
    if requests == 0 {
        return PrefillRoute::Nothing;
    }
    match pool_active {
        Some(active) => {
            if uses_paged_pool && active {
                PrefillRoute::Paged
            } else {
                PrefillRoute::EachRequest
            }
        },
        None => PrefillRoute::EachRequest,
    }
}

/// A batch goes into the pool exactly where there is a request, the model writes
/// there and the pool is active; there is nothing to do exactly without a request.
pub proof fn law_batches_are_routed(
    requests: usize,
    uses_paged_pool: bool,
    pool_active: Option<bool>,
)
    ensures
        route_of_batch(requests, uses_paged_pool, pool_active) is Nothing <==> requests == 0,
        route_of_batch(requests, uses_paged_pool, pool_active) is Paged <==> requests > 0
            && uses_paged_pool && pool_active == Some(true),
        route_of_batch(requests, uses_paged_pool, pool_active) is EachRequest <==> requests > 0 && (
        !uses_paged_pool || pool_active != Some(true)),
        phase_of_pass(requests) is Decode <==> requests == 1,
        phase_of_pass(requests) is Prefill <==> requests != 1,
{
}

/// The pages of two batches together are those of the one and those of the other.
pub proof fn law_pages_add_up(a: Seq<usize>, b: Seq<usize>)
    ensures
        pages_needed(a + b, (a + b).len() as int) == pages_needed(a, a.len() as int)
            + pages_needed(b, b.len() as int),
        forall|i: int|
            0 <= i < a.len() ==> #[trigger] a[i] <= pages_needed(a, a.len() as int),
    decreases b.len(),
{
    if b.len() == 0 {
        assert(a + b =~= a);
        assert forall|i: int| 0 <= i < a.len() implies #[trigger] a[i] <= pages_needed(
            a,
            a.len() as int,
        ) by {
            lemma_pages_grow(a, i + 1, a.len() as int);
            lemma_pages_grow(a, 0, i);
        }
    } else {
        let c = b.drop_last();
        law_pages_add_up(a, c);
        lemma_same_pages(a + b, a + c, (a + c).len() as int);
        lemma_same_pages(b, c, c.len() as int);
        assert((a + b).last() == b.last());
    }
}

proof fn lemma_same_pages(a: Seq<usize>, b: Seq<usize>, n: int)
    requires
        0 <= n <= a.len(),
        n <= b.len(),
        forall|i: int| 0 <= i < n ==> a[i] == b[i],
    ensures
        pages_needed(a, n) == pages_needed(b, n),
    decreases n,
{
    if n > 0 {
        lemma_same_pages(a, b, n - 1);
    }
}

/// A batch is planned exactly where its requests can be prefilled together and its
/// pages are free; then every request appends its own tokens to its own slot.
pub proof fn law_batches_are_planned_where_pages_are_free(
    r: Result<Option<Vec<PageAppend>>, PageShortage>,
    requests: Seq<PrefillBatchRequest<'_>>,
    pages: Seq<usize>,
    free: usize,
)
    requires
        is_page_plan(r, requests, pages, free),
    ensures
        r is Err <==> is_prefill_batch(requests) && pages_needed(pages, pages.len() as int) > free,
        r == Ok::<Option<Vec<PageAppend>>, PageShortage>(None) <==> !is_prefill_batch(requests),
        r matches Ok(Some(appends)) ==> {
            &&& appends@.len() == requests.len()
            &&& forall|i: int|
                0 <= i < requests.len() ==> (#[trigger] appends@[i]).slot_idx
                    == requests[i].slot_idx && appends@[i].tokens == requests[i].tokens.len()
            &&& forall|i: int, j: int|
                0 <= i < j < requests.len() ==> (#[trigger] appends@[i]).slot_idx != (
                #[trigger] appends@[j]).slot_idx
        },
        r matches Err(shortage) ==> shortage.free == free && shortage.required > shortage.free,
{
    if let Ok(Some(appends)) = r {
        assert forall|i: int| 0 <= i < requests.len() implies (#[trigger] appends@[i]).slot_idx
            == requests[i].slot_idx && appends@[i].tokens == requests[i].tokens.len() by {
            assert(requests[i].tokens.len() == requests[i].tokens@.len());
        }
        assert forall|i: int, j: int| 0 <= i < j < requests.len() implies (
        #[trigger] appends@[i]).slot_idx != (#[trigger] appends@[j]).slot_idx by {
            assert(requests[i].slot_idx != requests[j].slot_idx);
        }
    }
}

/// The room has no page more than the rows need: with one page less a row, a row of
/// the longest sequence would not fit. Without a longest sequence the room is that
/// of the pool.
pub proof fn law_capacity_has_no_spare_page(
    max_batch_size: usize,
    max_seq_len: usize,
    page_size: usize,
    fallback: usize,
)
    requires
        page_size > 0 && max_batch_size > 0 && max_seq_len > 0,
    ensures
        ({
            let pages = page_capacity(max_batch_size, Some(max_seq_len), page_size, fallback);
            pages < usize::MAX ==> (pages - max_batch_size) * page_size < max_batch_size
                * max_seq_len
        }),
        fallback > 0 ==> page_capacity(max_batch_size, None, page_size, fallback) == fallback,
        page_capacity(max_batch_size, None, page_size, 0) == 1,
{
    let rows = max_batch_size as int;
    let len = max_seq_len as int;
    let size = page_size as int;
    let q = len / size;
    let m = len % size;
    vstd::arithmetic::div_mod::lemma_fundamental_div_mod(len, size);
    assert(size * q == q * size) by (nonlinear_arith);
    let c = ceil_div(max_seq_len as nat, page_size as nat) as int;
    assert((c - 1) * size < len) by (nonlinear_arith)
        requires
            len == q * size + m,
            0 <= m < size,
            c == (if m == 0 { q } else { q + 1 }),
    ;
    assert(c >= 1) by (nonlinear_arith)
        requires
            len == q * size + m,
            len > 0,
            q >= 0,
            c == (if m == 0 { q } else { q + 1 }),
    ;
    assert((rows * c - rows) * size < rows * len) by (nonlinear_arith)
        requires
            (c - 1) * size < len,
            rows > 0,
    ;
}

} // verus!
