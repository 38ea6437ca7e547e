use vstd::prelude::*;

verus! {

/// The run-wide cap on how many input bytes may be committed to processing.
///
/// `limit` is fixed for the whole run; `consumed` only ever grows, through
/// `try_admit`, and never past `limit`. Admission is all or nothing: a
/// rejected entry changes nothing and is skipped for the rest of the run.
///
/// This type is the sequential core. A shell that runs entries in parallel
/// keeps `consumed` in one atomic cell and performs `admit_decision` inside
/// a single compare-and-swap, so that the check and the increment can never
/// be torn apart by a racing admission.
pub struct ByteBudget {
    limit: u64,
    consumed: u64,
}

/// The admission rule itself: an entry of `size` bytes is admitted exactly
/// when taking it keeps consumption within the limit.
pub open spec fn admits(consumed: int, limit: int, size: int) -> bool {
    consumed + size <= limit
}

/// Consumption after admitting a whole run of entry sizes in order, each
/// against the rule above: admitted sizes accumulate, rejected ones do not.
pub open spec fn consumed_after(limit: int, sizes: Seq<int>) -> int
    decreases sizes.len(),
{
    if sizes.len() == 0 {
        0
    } else if admits(consumed_after(limit, sizes.drop_last()), limit, sizes.last()) {
        consumed_after(limit, sizes.drop_last()) + sizes.last()
    } else {
        consumed_after(limit, sizes.drop_last())
    }
}

/// The subset of a run of entry sizes that the rule admits, in order.
pub open spec fn admitted_sizes(limit: int, sizes: Seq<int>) -> Seq<int>
    decreases sizes.len(),
{
    if sizes.len() == 0 {
        Seq::empty()
    } else if admits(consumed_after(limit, sizes.drop_last()), limit, sizes.last()) {
        admitted_sizes(limit, sizes.drop_last()).push(sizes.last())
    } else {
        admitted_sizes(limit, sizes.drop_last())
    }
}

/// The sum of a sequence of integers.
pub open spec fn sum_of(s: Seq<int>) -> int
    decreases s.len(),
{
    if s.len() == 0 {
        0
    } else {
        sum_of(s.drop_last()) + s.last()
    }
}

impl ByteBudget {
    /// The fixed limit of the run.
    pub closed spec fn limit(self) -> u64 {
        self.limit
    }

    /// The bytes committed so far.
    pub closed spec fn consumed(self) -> u64 {
        self.consumed
    }

    /// Consumption never stands past the limit.
    pub open spec fn wf(self) -> bool {
        self.consumed() <= self.limit()
    }

    /// A fresh budget: nothing consumed yet.
    pub fn new(limit: u64) -> (b: ByteBudget)
        ensures
            b.wf(),
            b.limit() == limit,
            b.consumed() == 0,
    {
        ByteBudget { limit, consumed: 0 }
    }

    /// Atomically decides one admission: admits the entry and charges its
    /// size exactly when that keeps consumption within the limit; otherwise
    /// changes nothing. Rejection is immediate and final — no waiting.
    pub fn try_admit(&mut self, size: u64) -> (admitted: bool)
        requires
            old(self).wf(),
        ensures
            final(self).wf(),
            final(self).limit() == old(self).limit(),
            admitted == admits(old(self).consumed() as int, old(self).limit() as int, size as int),
            admitted ==> final(self).consumed() == old(self).consumed() + size,
            !admitted ==> final(self).consumed() == old(self).consumed(),
    {
        if size <= self.limit - self.consumed {
            self.consumed = self.consumed + size;
            true
        } else {
            false
        }
    }

    /// Observable counter: bytes admitted so far, for progress reporting.
    pub fn bytes_admitted(&self) -> (n: u64)
        ensures
            n == self.consumed(),
    {
        self.consumed
    }

    /// Observable counter: the total budget, for progress reporting.
    pub fn budget_limit(&self) -> (n: u64)
        ensures
            n == self.limit(),
    {
        self.limit
    }
}

/// The decision a concurrent shell runs inside one compare-and-swap: given
/// the consumption it read and an entry size, the new consumption when the
/// entry is admitted, and nothing when it must be rejected.
pub fn admit_decision(consumed: u64, limit: u64, size: u64) -> (next: Option<u64>)
    ensures
        admits(consumed as int, limit as int, size as int) ==> next == Some((consumed + size) as u64),
        !admits(consumed as int, limit as int, size as int) ==> next is None,
{
    if consumed <= limit && size <= limit - consumed {
        Some(consumed + size)
    } else {
        None
    }
}

/// Law: over any run of nonnegative entry sizes, cumulative consumption
/// stays between zero and the limit — and since this holds of every prefix
/// of a run, consumption never exceeds the limit at any observable point.
pub proof fn lemma_budget_never_exceeded(limit: int, sizes: Seq<int>)
    requires
        limit >= 0,
        forall|i: int| 0 <= i < sizes.len() ==> sizes[i] >= 0,
    ensures
        0 <= consumed_after(limit, sizes) <= limit,
    decreases sizes.len(),
{
    if sizes.len() > 0 {
        assert(forall|i: int| 0 <= i < sizes.drop_last().len() ==> sizes.drop_last()[i] >= 0);
        lemma_budget_never_exceeded(limit, sizes.drop_last());
        assert(sizes.last() >= 0);
    }
}

/// Law: consumption equals the sum of exactly the admitted sizes — every
/// admitted entry is charged in full, and rejected entries are charged
/// nothing.
pub proof fn lemma_consumed_is_admitted_sum(limit: int, sizes: Seq<int>)
    ensures
        consumed_after(limit, sizes) == sum_of(admitted_sizes(limit, sizes)),
    decreases sizes.len(),
{
    if sizes.len() > 0 {
        lemma_consumed_is_admitted_sum(limit, sizes.drop_last());
        if admits(consumed_after(limit, sizes.drop_last()), limit, sizes.last()) {
            assert(admitted_sizes(limit, sizes).drop_last() =~= admitted_sizes(
                limit,
                sizes.drop_last(),
            ));
        }
    }
}

/// Law: a run whose nonnegative sizes sum to no more than the limit is
/// admitted in full — the budget only ever refuses what would not fit.
pub proof fn lemma_all_admitted_when_within(limit: int, sizes: Seq<int>)
    requires
        limit >= 0,
        forall|i: int| 0 <= i < sizes.len() ==> sizes[i] >= 0,
        sum_of(sizes) <= limit,
    ensures
        consumed_after(limit, sizes) == sum_of(sizes),
        admitted_sizes(limit, sizes) == sizes,
    decreases sizes.len(),
{
    if sizes.len() > 0 {
        assert(forall|i: int| 0 <= i < sizes.drop_last().len() ==> sizes.drop_last()[i] >= 0);
        lemma_budget_never_exceeded(limit, sizes.drop_last());
        lemma_all_admitted_when_within(limit, sizes.drop_last());
        assert(admitted_sizes(limit, sizes) =~= sizes);
    } else {
        assert(admitted_sizes(limit, sizes) =~= sizes);
    }
}

/// Law: admitting one more entry never lowers consumption — the counter is
/// monotonic.
pub proof fn lemma_consumed_monotonic(limit: int, sizes: Seq<int>, next: int)
    requires
        next >= 0,
    ensures
        consumed_after(limit, sizes.push(next)) >= consumed_after(limit, sizes),
{
    assert(sizes.push(next).drop_last() =~= sizes);
}

/// Law: one admission step of the model is exactly one `try_admit` step —
/// the size is added when the rule admits it and nothing changes otherwise.
pub proof fn lemma_admission_step(limit: int, sizes: Seq<int>, next: int)
    ensures
        admits(consumed_after(limit, sizes), limit, next) ==> consumed_after(
            limit,
            sizes.push(next),
        ) == consumed_after(limit, sizes) + next,
        !admits(consumed_after(limit, sizes), limit, next) ==> consumed_after(
            limit,
            sizes.push(next),
        ) == consumed_after(limit, sizes),
{
    assert(sizes.push(next).drop_last() =~= sizes);
}

} // verus!
