//! The pipeline definition ("pot"): owns the ordered recipe and the list of
//! sources. Construction — appending stages and sources — is the single
//! mutation phase and borrows the pot exclusively; brewing reads a frozen,
//! reference-counted snapshot of the recipe, so an append during an active
//! brew is ruled out by the types rather than by a lock's discipline.

use vstd::prelude::*;

use crate::brewery::{spec_submit_all, Brewery, BreweryView};
use crate::ingredient::{Ingredient, StageError};
use crate::source::{spec_fill_orders, Fill};
use std::sync::Arc;

verus! {

/// Abstract value of a pipeline definition: its stages and its sources, each
/// in the order added.
#[verifier::ext_equal]
pub ghost struct PotView {
    pub recipe: Seq<Ingredient>,
    pub sources: Seq<Fill>,
}

/// What one source contributes to the pool: the submissions its generated
/// orders make, or nothing when the source is misconfigured.
pub open spec fn spec_collect(v: BreweryView, f: Fill, recipe: Seq<Ingredient>) -> BreweryView {
    match spec_fill_orders(f, recipe) {
        Ok(orders) => spec_submit_all(v, orders),
        Err(_) => v,
    }
}

/// The pool state after brewing: every source run in the order it was added,
/// each against the same recipe snapshot.
pub open spec fn spec_brew(v: BreweryView, sources: Seq<Fill>, recipe: Seq<Ingredient>) -> BreweryView
    decreases sources.len(),
{
    if sources.len() == 0 {
        v
    } else {
        spec_brew(spec_collect(v, sources[0], recipe), sources.drop_first(), recipe)
    }
}

/// What brewing reports for one source: how many jobs it submitted, or the
/// local error that made it submit none.
pub open spec fn source_report(f: Fill, recipe: Seq<Ingredient>) -> Result<usize, StageError> {
    match spec_fill_orders(f, recipe) {
        Ok(orders) => Ok(orders.len() as usize),
        Err(e) => Err(e),
    }
}

/// The pipeline definition, holding the recipe to brew and the sources that
/// feed it.
pub struct Pot {
    recipe: Vec<Ingredient>,
    sources: Vec<Fill>,
}

impl View for Pot {
    type V = PotView;

    closed spec fn view(&self) -> PotView {
        PotView { recipe: self.recipe@, sources: self.sources@ }
    }
}

impl Pot {
    /// A pot with an empty recipe and no sources.
    pub fn new() -> (r: Pot)
        ensures
            r@.recipe == Seq::<Ingredient>::empty(),
            r@.sources == Seq::<Fill>::empty(),
    {
        Pot { recipe: Vec::new(), sources: Vec::new() }
    }

    /// Append a stage to the recipe. This is the recipe's only mutation
    /// point, and it is available only before brewing snapshots the recipe.
    pub fn add_ingredient(&mut self, ingredient: Ingredient)
        ensures
            final(self)@.recipe == old(self)@.recipe.push(ingredient),
            final(self)@.sources == old(self)@.sources,
    {
        self.recipe.push(ingredient);
    }

    /// Append a source to the list the next brew will run.
    pub fn add_source(&mut self, source: Fill)
        ensures
            final(self)@.sources == old(self)@.sources.push(source),
            final(self)@.recipe == old(self)@.recipe,
    {
        self.sources.push(source);
    }

    /// The sources held by the pot, in the order added.
    pub fn get_sources(&self) -> (r: &Vec<Fill>)
        ensures
            r@ == self@.sources,
    {
        &self.sources
    }

    /// A new shared, reference-counted handle to a frozen snapshot of the
    /// recipe, usable from any thread; the snapshot holds exactly the stages
    /// added so far, in order.
    pub fn get_recipe(&self) -> (r: Arc<Vec<Ingredient>>)
        ensures
            r@ == self@.recipe,
    {
        let mut snapshot: Vec<Ingredient> = Vec::new();
        let n = self.recipe.len();
        for i in 0..n
            invariant
                n == self.recipe@.len(),
                snapshot@.len() == i,
                forall|j: int| 0 <= j < i ==> snapshot@[j] == self.recipe@[j],
        {
            snapshot.push(self.recipe[i].clone());
        }
        proof {
            assert(snapshot@ =~= self.recipe@);
        }
        Arc::new(snapshot)
    }

    /// Brew: run every source in the order it was added, handing each the
    /// pool and a fresh handle to the frozen recipe. Brewing does not wait
    /// for the submitted jobs; completion is observed through pool teardown.
    /// A misconfigured source is a local failure: it submits nothing and its
    /// error lands in its own slot of the report, while the other sources
    /// still run.
    #[verifier::loop_isolation(false)]
    pub fn brew(&self, brewery: &mut Brewery) -> (r: Vec<Result<usize, StageError>>)
        requires
            old(brewery).wf(),
            !old(brewery)@.terminated,
        ensures
            final(brewery).wf(),
            !final(brewery)@.terminated,
            final(brewery)@ == spec_brew(old(brewery)@, self@.sources, self@.recipe),
            r@.len() == self@.sources.len(),
            forall|i: int|
                0 <= i < r@.len() ==> r@[i] == source_report(self@.sources[i], self@.recipe),
    {
        let ghost srcs = self.sources@;
        let mut reports: Vec<Result<usize, StageError>> = Vec::new();
        let n = self.sources.len();
        proof {
            assert(srcs.skip(0) =~= srcs);
        }
        for i in 0..n
            invariant
                n == srcs.len(),
                brewery.wf(),
                !brewery@.terminated,
                spec_brew(old(brewery)@, srcs, self@.recipe) == spec_brew(
                    brewery@,
                    srcs.skip(i as int),
                    self@.recipe,
                ),
                reports@.len() == i,
                forall|j: int|
                    0 <= j < i ==> reports@[j] == source_report(srcs[j], self@.recipe),
        {
            proof {
                assert(srcs.skip(i as int)[0] == srcs[i as int]);
                assert(srcs.skip(i as int).drop_first() =~= srcs.skip(i as int + 1));
            }
            let handle = self.get_recipe();
            let outcome = self.sources[i].collect(brewery, handle);
            reports.push(outcome);
        }
        proof {
            assert(srcs.skip(n as int) =~= Seq::<Fill>::empty());
        }
        reports
    }
}

} // verus!
