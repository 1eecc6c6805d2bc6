//! The worker pool ("brewery") and the batch executor.
//!
//! A job ("order") is an explicit value: an owned batch plus a shared,
//! reference-counted read handle to the frozen recipe. Orders travel through
//! one ordered channel; a terminate sentinel carries no payload and retires
//! the worker that receives it. Pool teardown appends exactly one sentinel
//! per worker behind all pending jobs, so every job submitted before teardown
//! runs to completion before the pool counts as stopped — termination is
//! cooperative, never preemptive.
//!
//! The pool here is the verified state machine over that protocol: it records
//! the pending queue and the outcome of every completed job, and its
//! operations say exactly how submission, dispatch and teardown move the
//! state. An embedding application may either let `teardown` drain the queue
//! in place or pull orders off with `next_order` and run the executor on real
//! threads; the executor itself is a pure function of the order.

use vstd::multiset::Multiset;
use vstd::prelude::*;

use crate::ingredient::{spec_stage, Ingredient, StageError};
use crate::tea::{batch_view, TeaView, TextTea};
use std::sync::Arc;

verus! {

/// One unit of submitted work: an owned batch and a shared handle to the
/// recipe it is to run through.
pub struct Order {
    pub tea_batch: Vec<TextTea>,
    pub recipe: Arc<Vec<Ingredient>>,
}

/// Mathematical value of an order: the batch's record values and the exact
/// stage list its handle refers to.
#[verifier::ext_equal]
pub ghost struct OrderView {
    pub tea_batch: Seq<TeaView>,
    pub recipe: Seq<Ingredient>,
}

impl View for Order {
    type V = OrderView;

    open spec fn view(&self) -> OrderView {
        OrderView { tea_batch: batch_view(self.tea_batch@), recipe: self.recipe@ }
    }
}

/// A message on the pool's channel: a new job, or the terminate sentinel
/// that retires one worker.
pub enum OrderTea {
    NewOrder(Order),
    Terminate,
}

/// What running a whole recipe does to a batch: the stages applied in
/// definition order, stopping at the first stage that reports an error.
pub open spec fn spec_make_tea(recipe: Seq<Ingredient>, batch: Seq<TeaView>) -> Result<
    Seq<TeaView>,
    StageError,
>
    decreases recipe.len(),
{
    if recipe.len() == 0 {
        Ok(batch)
    } else {
        match spec_stage(recipe[0], batch) {
            Ok(b) => spec_make_tea(recipe.drop_first(), b),
            Err(e) => Err(e),
        }
    }
}

/// The outcome a worker records for an order: its batch run through its own
/// recipe handle.
pub open spec fn order_outcome(o: OrderView) -> Result<Seq<TeaView>, StageError> {
    spec_make_tea(o.recipe, o.tea_batch)
}

/// The mathematical value of a completed job's outcome.
pub open spec fn outcome_view(r: Result<Vec<TextTea>, StageError>) -> Result<
    Seq<TeaView>,
    StageError,
> {
    match r {
        Ok(v) => Ok(batch_view(v@)),
        Err(e) => Err(e),
    }
}

/// Run a batch through a recipe: each stage is applied to the output of the
/// stage before it, in definition order; the first stage-local error stops
/// the run and is reported for this batch alone. This is the function a
/// worker runs for one order.
#[verifier::loop_isolation(false)]
pub fn make_tea(tea_batch: Vec<TextTea>, recipe: Arc<Vec<Ingredient>>) -> (r: Result<
    Vec<TextTea>,
    StageError,
>)
    ensures
        outcome_view(r) == spec_make_tea(recipe@, batch_view(tea_batch@)),
{
    let ghost orig = batch_view(tea_batch@);
    let stages: &Vec<Ingredient> = &*recipe;
    let mut batch = tea_batch;
    let n = stages.len();
    proof {
        assert(stages@.skip(0) =~= stages@);
    }
    for i in 0..n
        invariant
            n == stages@.len(),
            spec_make_tea(stages@, orig) == spec_make_tea(
                stages@.skip(i as int),
                batch_view(batch@),
            ),
    {
        proof {
            assert(stages@.skip(i as int)[0] == stages@[i as int]);
            assert(stages@.skip(i as int).drop_first() =~= stages@.skip(i as int + 1));
        }
        let ghost before = batch_view(batch@);
        batch = match stages[i].exec(batch) {
            Ok(b) => b,
            Err(e) => {
                proof {
                    assert(spec_stage(stages@[i as int], before) == Err::<Seq<TeaView>, StageError>(
                        e,
                    ));
                    assert(spec_make_tea(stages@.skip(i as int), before) == Err::<
                        Seq<TeaView>,
                        StageError,
                    >(e));
                }
                return Err(e);
            },
        };
    }
    proof {
        assert(stages@.skip(n as int) =~= Seq::<Ingredient>::empty());
    }
    Ok(batch)
}

/// The payload of a channel message; a terminate sentinel carries none, and
/// a well-formed pool never holds one in its pending queue.
pub open spec fn message_order(m: OrderTea) -> OrderView {
    match m {
        OrderTea::NewOrder(o) => o@,
        OrderTea::Terminate => arbitrary(),
    }
}

/// The mathematical value of a message queue: the orders it carries.
pub open spec fn queue_view(q: Seq<OrderTea>) -> Seq<OrderView> {
    q.map_values(|m: OrderTea| message_order(m))
}

/// The mathematical value of a list of recorded job outcomes.
pub open spec fn outcomes_view(s: Seq<Result<Vec<TextTea>, StageError>>) -> Seq<
    Result<Seq<TeaView>, StageError>,
> {
    s.map_values(|r: Result<Vec<TextTea>, StageError>| outcome_view(r))
}

/// One worker of the pool. The handle carries the worker's number; in an
/// embedding that drives the pool with real threads, the thread itself lives
/// with the embedder.
pub struct Brewer {
    pub id: usize,
}

impl Brewer {
    /// Create the worker handle numbered `id`.
    pub fn new(id: usize) -> (r: Brewer)
        ensures
            r.id == id,
    {
        Brewer { id }
    }
}

/// Why pool construction failed.
#[derive(Clone, Copy, PartialEq, Eq, Structural, Debug)]
pub enum BreweryError {
    /// A pool of zero workers was requested.
    NoBrewers,
}

/// Abstract state of the pool: how many workers are attached, the pending
/// jobs in submission order, the outcome of every job completed so far in
/// completion order, and whether teardown has retired the pool.
#[verifier::ext_equal]
pub ghost struct BreweryView {
    pub brewers: nat,
    pub queue: Seq<OrderView>,
    pub results: Seq<Result<Seq<TeaView>, StageError>>,
    pub terminated: bool,
}

/// The pool state after construction: `size` idle workers, nothing pending,
/// nothing completed.
pub open spec fn spec_new_brewery(size: nat) -> BreweryView {
    BreweryView { brewers: size, queue: Seq::empty(), results: Seq::empty(), terminated: false }
}

/// Submission appends the order behind everything already pending and
/// changes nothing else.
pub open spec fn spec_take_order(v: BreweryView, o: OrderView) -> BreweryView {
    BreweryView { queue: v.queue.push(o), ..v }
}

/// Dispatch hands out the oldest pending order and changes nothing else.
pub open spec fn spec_next_order(v: BreweryView) -> BreweryView {
    BreweryView { queue: v.queue.drop_first(), ..v }
}

/// Teardown drains, then stops: every pending job is completed in submission
/// order, with its outcome recorded, and only then are the workers retired.
pub open spec fn spec_teardown(v: BreweryView) -> BreweryView {
    BreweryView {
        brewers: 0,
        queue: Seq::empty(),
        results: v.results + v.queue.map_values(|o: OrderView| order_outcome(o)),
        terminated: true,
    }
}

/// The worker pool: a fixed set of workers pulling submitted jobs from one
/// shared, ordered channel and running each to completion.
pub struct Brewery {
    brewers: Vec<Brewer>,
    queue: Vec<OrderTea>,
    results: Vec<Result<Vec<TextTea>, StageError>>,
    terminated: bool,
}

impl View for Brewery {
    type V = BreweryView;

    closed spec fn view(&self) -> BreweryView {
        BreweryView {
            brewers: self.brewers@.len(),
            queue: queue_view(self.queue@),
            results: outcomes_view(self.results@),
            terminated: self.terminated,
        }
    }
}

impl Brewery {
    /// Internal well-formedness: a live pool has at least one worker and its
    /// channel holds only real jobs; a retired pool has neither workers nor
    /// pending jobs.
    pub closed spec fn wf(&self) -> bool {
        &&& (!self.terminated ==> self.brewers@.len() >= 1)
        &&& (self.terminated ==> self.brewers@.len() == 0 && self.queue@.len() == 0)
        &&& (forall|j: int| 0 <= j < self.queue@.len() ==> (#[trigger] self.queue@[j]) is NewOrder)
        &&& (forall|j: int|
            0 <= j < self.brewers@.len() ==> (#[trigger] self.brewers@[j]).id == j)
    }

    /// Create a pool of `size` workers. Construction succeeds for every
    /// size of at least one and fails for size zero, before any worker
    /// exists.
    pub fn new(size: usize) -> (r: Result<Brewery, BreweryError>)
        ensures
            size == 0 <==> r is Err,
            r matches Ok(b) ==> b@ == spec_new_brewery(size as nat) && b.wf(),
            r matches Err(e) ==> e == BreweryError::NoBrewers,
    {
        if size == 0 {
            return Err(BreweryError::NoBrewers);
        }
        let mut brewers: Vec<Brewer> = Vec::new();
        for id in 0..size
            invariant
                brewers@.len() == id,
                forall|j: int| 0 <= j < id ==> (#[trigger] brewers@[j]).id == j,
        {
            brewers.push(Brewer::new(id));
        }
        let b = Brewery { brewers, queue: Vec::new(), results: Vec::new(), terminated: false };
        proof {
            assert(b@ =~= spec_new_brewery(size as nat));
        }
        Ok(b)
    }

    /// Number of workers attached to the pool.
    pub fn get_brewer_info(&self) -> (r: usize)
        ensures
            r == self@.brewers,
    {
        self.brewers.len()
    }

    /// Whether teardown has already retired the pool.
    pub fn is_terminated(&self) -> (r: bool)
        ensures
            r == self@.terminated,
    {
        self.terminated
    }

    /// How many pending jobs the pool holds.
    pub fn pending(&self) -> (r: usize)
        ensures
            r == self@.queue.len(),
    {
        self.queue.len()
    }

    /// How many submitted jobs have run to completion.
    pub fn completed(&self) -> (r: usize)
        ensures
            r == self@.results.len(),
    {
        self.results.len()
    }

    /// The recorded outcomes of the jobs completed so far, in completion
    /// order.
    pub fn get_results(&self) -> (r: &Vec<Result<Vec<TextTea>, StageError>>)
        ensures
            outcomes_view(r@) == self@.results,
    {
        &self.results
    }

    /// Enqueue one job. Submission never blocks and may come from any number
    /// of producers; the order lands behind everything already pending.
    /// Submitting to a pool that was already torn down is a lifecycle bug
    /// (the channel has no receiver left), so it is excluded here rather
    /// than tolerated.
    pub fn take_order(&mut self, order: Order)
        requires
            old(self).wf(),
            !old(self)@.terminated,
        ensures
            final(self).wf(),
            final(self)@ == spec_take_order(old(self)@, order@),
    {
        let ghost ov = order@;
        self.queue.push(OrderTea::NewOrder(order));
        proof {
            assert(final(self)@.queue =~= old(self)@.queue.push(ov));
            assert(final(self)@ =~= spec_take_order(old(self)@, ov));
        }
    }

    /// Pool teardown: drain, then stop. One terminate sentinel per worker
    /// is appended behind every pending job in the same ordered channel, so
    /// a worker meets its sentinel only after all real jobs are gone: every
    /// job submitted before teardown runs to completion, in submission
    /// order, before the last worker is retired. In-flight work is never
    /// cancelled; termination is cooperative.
    #[verifier::loop_isolation(false)]
    pub fn teardown(&mut self)
        requires
            old(self).wf(),
            !old(self)@.terminated,
        ensures
            final(self).wf(),
            final(self)@ == spec_teardown(old(self)@),
    {
        let n = self.brewers.len();
        let jobs_len = self.queue.len();
        let ghost jobs = self.queue@;
        let ghost res0 = outcomes_view(self.results@);
        // One sentinel per worker, behind all pending jobs.
        for s in 0..n
            invariant
                self.queue@.len() == jobs.len() + s,
                forall|t: int| 0 <= t < jobs.len() ==> self.queue@[t] == jobs[t],
                forall|t: int|
                    jobs.len() <= t < self.queue@.len() ==> (#[trigger] self.queue@[t])
                        is Terminate,
                self.brewers@ == old(self).brewers@,
                self.results@ == old(self).results@,
                self.terminated == old(self).terminated,
        {
            self.queue.push(OrderTea::Terminate);
        }
        // The jobs sit in front of every sentinel: they all run first.
        for j in 0..jobs_len
            invariant
                self.queue@.len() == jobs.len() - j + n,
                forall|t: int| 0 <= t < jobs.len() - j ==> self.queue@[t] == jobs[t + j],
                forall|t: int|
                    jobs.len() - j <= t < self.queue@.len() ==> (#[trigger] self.queue@[t])
                        is Terminate,
                self.brewers@ == old(self).brewers@,
                self.terminated == old(self).terminated,
                outcomes_view(self.results@) == res0 + queue_view(jobs.take(j as int)).map_values(
                    |o: OrderView| order_outcome(o),
                ),
        {
            let m = self.queue.remove(0);
            match m {
                OrderTea::NewOrder(o) => {
                    let ghost ov = o@;
                    let out = make_tea(o.tea_batch, o.recipe);
                    let ghost prevres = self.results@;
                    let ghost outv = outcome_view(out);
                    self.results.push(out);
                    proof {
                        assert(outv == order_outcome(ov));
                        assert(outcomes_view(prevres.push(out)) =~= outcomes_view(prevres).push(
                            outv,
                        ));
                        assert(queue_view(jobs.take(j as int + 1)) =~= queue_view(
                            jobs.take(j as int),
                        ).push(ov));
                        assert(queue_view(jobs.take(j as int + 1)).map_values(
                            |o: OrderView| order_outcome(o),
                        ) =~= queue_view(jobs.take(j as int)).map_values(
                            |o: OrderView| order_outcome(o),
                        ).push(order_outcome(ov)));
                        assert(outcomes_view(self.results@) =~= res0 + queue_view(
                            jobs.take(j as int + 1),
                        ).map_values(|o: OrderView| order_outcome(o)));
                    }
                },
                OrderTea::Terminate => {
                    proof {
                        assert(false);
                    }
                },
            }
        }
        proof {
            assert(jobs.take(jobs.len() as int) =~= jobs);
        }
        // Each worker exits its loop on the sentinel it receives.
        for k in 0..n
            invariant
                self.queue@.len() == n - k,
                forall|t: int|
                    0 <= t < self.queue@.len() ==> (#[trigger] self.queue@[t]) is Terminate,
                self.brewers@.len() == n - k,
                forall|t: int|
                    0 <= t < self.brewers@.len() ==> (#[trigger] self.brewers@[t]).id == t,
                self.terminated == old(self).terminated,
                outcomes_view(self.results@) == res0 + queue_view(jobs).map_values(
                    |o: OrderView| order_outcome(o),
                ),
        {
            let m = self.queue.remove(0);
            match m {
                OrderTea::Terminate => {
                    let _ = self.brewers.pop();
                },
                OrderTea::NewOrder(_) => {
                    proof {
                        assert(false);
                    }
                },
            }
        }
        self.terminated = true;
        proof {
            assert(final(self)@.queue =~= Seq::<OrderView>::empty());
            assert(final(self)@ =~= spec_teardown(old(self)@));
        }
    }

    /// Dispatch: hand the oldest pending order out of the pool, for an
    /// embedder that runs jobs on workers of its own instead of draining the
    /// queue in place at teardown.
    pub fn next_order(&mut self) -> (r: Option<Order>)
        requires
            old(self).wf(),
        ensures
            final(self).wf(),
            old(self)@.queue.len() == 0 ==> r is None && *final(self) == *old(self),
            old(self)@.queue.len() > 0 ==> (r matches Some(o) && o@ == old(self)@.queue[0]
                && final(self)@ == spec_next_order(old(self)@)),
    {
        if self.queue.len() == 0 {
            return None;
        }
        let m = self.queue.remove(0);
        proof {
            assert(old(self).queue@[0] is NewOrder);
            assert(final(self)@.queue =~= old(self)@.queue.drop_first());
            assert(final(self)@ =~= spec_next_order(old(self)@));
        }
        match m {
            OrderTea::NewOrder(o) => Some(o),
            OrderTea::Terminate => {
                proof {
                    assert(false);
                }
                unreached()
            },
        }
    }
}

/// Running a recipe in one pass over a batch equals running its stages one
/// at a time: splitting the recipe anywhere, the one-pass result is the
/// second part applied to the first part's result, and any error of the
/// first part is the error of the whole.
pub proof fn lemma_make_tea_stagewise(r1: Seq<Ingredient>, r2: Seq<Ingredient>, batch: Seq<TeaView>)
    ensures
        spec_make_tea(r1 + r2, batch) == (match spec_make_tea(r1, batch) {
            Ok(mid) => spec_make_tea(r2, mid),
            Err(e) => Err(e),
        }),
    decreases r1.len(),
{
    if r1.len() == 0 {
        assert(r1 + r2 =~= r2);
    } else {
        assert((r1 + r2)[0] == r1[0]);
        assert((r1 + r2).drop_first() =~= r1.drop_first() + r2);
        match spec_stage(r1[0], batch) {
            Ok(b) => {
                lemma_make_tea_stagewise(r1.drop_first(), r2, b);
            },
            Err(e) => {},
        }
    }
}

/// A recipe of one stage behaves as that stage alone; together with the
/// split above, a whole run is exactly the stage-by-stage application of
/// its stages in definition order.
pub proof fn lemma_make_tea_single(stage: Ingredient, batch: Seq<TeaView>)
    ensures
        spec_make_tea(seq![stage], batch) == spec_stage(stage, batch),
{
    assert(seq![stage][0] == stage);
    assert(seq![stage].drop_first() =~= Seq::<Ingredient>::empty());
    match spec_stage(stage, batch) {
        Ok(b) => {
            assert(spec_make_tea(Seq::<Ingredient>::empty(), b) == Ok::<Seq<TeaView>, StageError>(
                b,
            ));
        },
        Err(e) => {},
    }
}

/// The pool state after a sequence of submissions, one after the other.
pub open spec fn spec_submit_all(v: BreweryView, orders: Seq<OrderView>) -> BreweryView
    decreases orders.len(),
{
    if orders.len() == 0 {
        v
    } else {
        spec_submit_all(spec_take_order(v, orders[0]), orders.drop_first())
    }
}

/// Submissions only grow the pending queue, in submission order; workers,
/// recorded outcomes and the terminated flag are untouched.
pub proof fn lemma_submit_all(v: BreweryView, orders: Seq<OrderView>)
    ensures
        spec_submit_all(v, orders) == (BreweryView { queue: v.queue + orders, ..v }),
    decreases orders.len(),
{
    if orders.len() == 0 {
        assert(v.queue + orders =~= v.queue);
        assert(spec_submit_all(v, orders) =~= BreweryView { queue: v.queue + orders, ..v });
    } else {
        lemma_submit_all(spec_take_order(v, orders[0]), orders.drop_first());
        assert(v.queue.push(orders[0]) + orders.drop_first() =~= v.queue + orders);
        assert(spec_submit_all(v, orders) =~= BreweryView { queue: v.queue + orders, ..v });
    }
}

/// Every job submitted before teardown has completed when teardown returns:
/// after any sequence of submissions, teardown leaves one recorded outcome
/// per submitted job — each the result of running that job's own batch
/// through that job's own recipe handle — in submission order, behind the
/// outcomes that were already recorded.
pub proof fn lemma_teardown_completes_all(v: BreweryView, orders: Seq<OrderView>)
    ensures
        spec_teardown(spec_submit_all(v, orders)).results == v.results + (v.queue
            + orders).map_values(|o: OrderView| order_outcome(o)),
        spec_teardown(spec_submit_all(v, orders)).results.len() == v.results.len() + v.queue.len()
            + orders.len(),
        spec_teardown(spec_submit_all(v, orders)).queue.len() == 0,
{
    lemma_submit_all(v, orders);
}

/// One serialised history that two producers, each submitting its own run
/// of orders in its own order, could produce together on the shared channel.
pub open spec fn is_interleaving(
    s: Seq<OrderView>,
    a: Seq<OrderView>,
    b: Seq<OrderView>,
) -> bool
    decreases s.len(),
{
    if s.len() == 0 {
        a.len() == 0 && b.len() == 0
    } else {
        ||| (a.len() > 0 && s[0] == a[0] && is_interleaving(s.drop_first(), a.drop_first(), b))
        ||| (b.len() > 0 && s[0] == b[0] && is_interleaving(s.drop_first(), a, b.drop_first()))
    }
}

/// Concurrent submission from two sources does not corrupt the pool:
/// whatever order their submissions interleave in on the shared channel,
/// teardown completes exactly the jobs of both sources — no job lost, none
/// duplicated — and each recorded outcome is its own batch run through its
/// own recipe handle, untouched by the other source.
pub proof fn lemma_concurrent_sources(
    v: BreweryView,
    s: Seq<OrderView>,
    a: Seq<OrderView>,
    b: Seq<OrderView>,
)
    requires
        is_interleaving(s, a, b),
    ensures
        s.len() == a.len() + b.len(),
        s.to_multiset() == a.to_multiset().add(b.to_multiset()),
        spec_teardown(spec_submit_all(v, s)).results == v.results + (v.queue
            + s).map_values(|o: OrderView| order_outcome(o)),
    decreases s.len(),
{
    lemma_teardown_completes_all(v, s);
    lemma_interleaving_multiset(s, a, b);
}

/// An interleaving carries exactly the elements of its two inputs.
proof fn lemma_interleaving_multiset(s: Seq<OrderView>, a: Seq<OrderView>, b: Seq<OrderView>)
    requires
        is_interleaving(s, a, b),
    ensures
        s.len() == a.len() + b.len(),
        s.to_multiset() == a.to_multiset().add(b.to_multiset()),
    decreases s.len(),
{
    broadcast use vstd::seq_lib::group_to_multiset_ensures;

    if s.len() == 0 {
        vstd::multiset::lemma_multiset_empty_len(s.to_multiset());
        vstd::multiset::lemma_multiset_empty_len(a.to_multiset());
        vstd::multiset::lemma_multiset_empty_len(b.to_multiset());
        assert(s.to_multiset() =~= a.to_multiset().add(b.to_multiset()));
    } else {
        if a.len() > 0 && s[0] == a[0] && is_interleaving(s.drop_first(), a.drop_first(), b) {
            lemma_interleaving_multiset(s.drop_first(), a.drop_first(), b);
            lemma_first_multiset(s);
            lemma_first_multiset(a);
            assert(s.to_multiset() =~= a.to_multiset().add(b.to_multiset()));
        } else {
            lemma_interleaving_multiset(s.drop_first(), a, b.drop_first());
            lemma_first_multiset(s);
            lemma_first_multiset(b);
            assert(s.to_multiset() =~= a.to_multiset().add(b.to_multiset()));
        }
    }
}

/// A non-empty sequence's multiset is its first element plus the rest.
proof fn lemma_first_multiset(s: Seq<OrderView>)
    requires
        s.len() > 0,
    ensures
        s.to_multiset() == s.drop_first().to_multiset().insert(s[0]),
{
    broadcast use vstd::seq_lib::group_to_multiset_ensures;

    assert(s =~= seq![s[0]] + s.drop_first());
    vstd::seq_lib::lemma_multiset_commutative(seq![s[0]], s.drop_first());
    assert(seq![s[0]].to_multiset() =~= Multiset::<OrderView>::empty().insert(s[0]));
    assert(s.to_multiset() =~= s.drop_first().to_multiset().insert(s[0]));
}

} // verus!
