//! A small embeddable ETL engine: a pipeline definition (a recipe of ordered
//! stages) is applied to batches of records ("tea"). Producers ("sources")
//! generate batches and hand each batch, together with a shared read-only
//! handle to the recipe, to a worker pool; every batch then runs through the
//! full recipe independently of every other batch.
//!
//! The stage set is a closed sum over the kinds Steep (transform), Skim
//! (narrow) and Pour (sink), so the executor dispatches by pattern match and
//! no runtime type recovery can fail. The recipe is frozen into a
//! reference-counted snapshot before brewing begins, which makes the
//! "no append during brew" protocol a property of the types. The worker pool
//! is modelled as a state machine over an ordered job channel with terminate
//! sentinels; an embedding application may drive it with real threads.

pub mod brewery;
pub mod ingredient;
pub mod pot;
pub mod source;
pub mod tea;
