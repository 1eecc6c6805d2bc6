//! Sources ("fills"): named generators that produce batches of fresh records
//! and submit one job per batch to the worker pool, each job carrying its own
//! clone of the shared recipe handle. A source is not a recipe stage — it
//! runs before the pipeline, once per brew — and it is the system's only
//! point of load shaping: its argument fixes how many records are produced
//! and how many go into each batch.

use vstd::prelude::*;

use crate::brewery::{spec_submit_all, Brewery, Order, OrderView};
use crate::ingredient::{Argument, Ingredient, StageError};
use crate::tea::TextTea;
use std::sync::Arc;

verus! {

/// A source of records. Each produced record is a fresh copy of the
/// template; the Fill argument fixes the total record count and the batch
/// size, and a full batch becomes one submitted job.
pub struct Fill {
    pub source: String,
    pub name: String,
    pub template: TextTea,
    pub params: Option<Argument>,
}

/// The jobs a source generates for a given recipe snapshot: the total record
/// count divided into full batches, every record a fresh copy of the
/// template — or the local error when the source's argument is missing, of
/// the wrong kind, or names an empty batch.
pub open spec fn spec_fill_orders(f: Fill, recipe: Seq<Ingredient>) -> Result<
    Seq<OrderView>,
    StageError,
> {
    match f.params {
        None => Err(StageError::MissingArgument),
        Some(Argument::Fill(a)) => if a.batch_size == 0 {
            Err(StageError::InvalidArgument)
        } else {
            Ok(
                Seq::new(
                    (a.docs_to_create / a.batch_size) as nat,
                    |i: int|
                        OrderView {
                            tea_batch: Seq::new(a.batch_size as nat, |j: int| f.template@),
                            recipe: recipe,
                        },
                ),
            )
        },
        Some(_) => Err(StageError::ArgumentMismatch),
    }
}

impl Fill {
    /// The argument, if any, this source was configured with.
    pub fn get_params(&self) -> (r: &Option<Argument>)
        ensures
            *r == self.params,
    {
        &self.params
    }

    /// The name given to this source.
    pub fn get_name(&self) -> (r: &str)
        ensures
            r@ == self.name@,
    {
        self.name.as_str()
    }

    /// The label of where this source draws from.
    pub fn get_source(&self) -> (r: &str)
        ensures
            r@ == self.source@,
    {
        self.source.as_str()
    }

    /// Run this source's generation: assemble batches of fresh records and
    /// submit one job per batch to the pool, each job with its own clone of
    /// the recipe handle. Returns how many jobs were submitted; a
    /// misconfigured source submits nothing and reports its error, leaving
    /// the pool exactly as it was.
    #[verifier::loop_isolation(false)]
    pub fn collect(&self, brewery: &mut Brewery, recipe: Arc<Vec<Ingredient>>) -> (r: Result<
        usize,
        StageError,
    >)
        requires
            old(brewery).wf(),
            !old(brewery)@.terminated,
        ensures
            final(brewery).wf(),
            !final(brewery)@.terminated,
            match spec_fill_orders(*self, recipe@) {
                Ok(orders) => r matches Ok(n) && n == orders.len() && final(brewery)@
                    == spec_submit_all(old(brewery)@, orders),
                Err(e) => r == Err::<usize, StageError>(e) && *final(brewery) == *old(brewery),
            },
    {
        let args = match &self.params {
            None => {
                return Err(StageError::MissingArgument);
            },
            Some(p) => match p.as_fill() {
                None => {
                    return Err(StageError::ArgumentMismatch);
                },
                Some(a) => a,
            },
        };
        if args.batch_size == 0 {
            return Err(StageError::InvalidArgument);
        }
        let num_iterations = args.docs_to_create / args.batch_size;
        let ghost orders = spec_fill_orders(*self, recipe@)->Ok_0;
        proof {
            assert(orders.take(0) =~= Seq::<OrderView>::empty());
        }
        for i in 0..num_iterations
            invariant
                brewery.wf(),
                !brewery@.terminated,
                brewery@ == spec_submit_all(old(brewery)@, orders.take(i as int)),
        {
            let mut tea_batch: Vec<TextTea> = Vec::new();
            for k in 0..args.batch_size
                invariant
                    tea_batch@.len() == k,
                    forall|t: int| 0 <= t < k ==> (#[trigger] tea_batch@[t])@ == self.template@,
            {
                tea_batch.push(self.template.clone());
            }
            let order = Order { tea_batch, recipe: recipe.clone() };
            proof {
                assert(order@ =~= orders[i as int]);
            }
            brewery.take_order(order);
            proof {
                crate::brewery::lemma_submit_all(old(brewery)@, orders.take(i as int));
                crate::brewery::lemma_submit_all(old(brewery)@, orders.take(i as int + 1));
                assert(old(brewery)@.queue + orders.take(i as int + 1) =~= (old(
                    brewery,
                )@.queue + orders.take(i as int)).push(orders[i as int]));
                assert(brewery@ =~= spec_submit_all(old(brewery)@, orders.take(i as int + 1)));
            }
        }
        proof {
            assert(orders.take(num_iterations as int) =~= orders);
        }
        Ok(num_iterations)
    }
}

} // verus!
