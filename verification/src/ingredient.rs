//! Stages ("ingredients") and their configuration values ("arguments").
//!
//! A stage is a named pipeline step over a batch of records. The stage kinds
//! form a closed sum — Steep (content transform), Skim (field narrowing),
//! Pour (sink) — so the batch executor dispatches by pattern match. All three
//! kinds share one execution signature: batch and optional argument in, batch
//! out; the kind carries semantic intent only. A stage's transform is chosen
//! from a closed set of record operations, and its argument, when one is
//! required, is recovered by a checked extraction that fails locally instead
//! of aborting the worker.

use vstd::prelude::*;

use crate::tea::{batch_view, TeaView, TextTea};
use std::sync::Arc;

verus! {

/// A record field that a narrowing stage can clear.
#[derive(Clone, Copy, PartialEq, Eq, Structural, Debug)]
pub enum Field {
    X,
    StrVal,
    Y,
}

/// Configuration for a Steep stage: the offset applied to the integer field.
#[derive(Clone, Copy, PartialEq, Eq, Structural, Debug)]
pub struct SteepArgs {
    pub increment: i32,
}

/// Configuration for a Skim stage: which field to clear.
#[derive(Clone, Copy, PartialEq, Eq, Structural, Debug)]
pub struct SkimArgs {
    pub field: Field,
}

/// Configuration for a Fill source: how many records to produce in all, and
/// how many go into each submitted batch.
#[derive(Clone, Copy, PartialEq, Eq, Structural, Debug)]
pub struct FillArgs {
    pub batch_size: usize,
    pub docs_to_create: usize,
}

/// An opaque per-stage configuration value. A stage recovers the concrete
/// type it expects through one of the checked extraction methods; asking for
/// the wrong one yields `None` rather than aborting.
#[derive(Clone, Copy, PartialEq, Eq, Structural, Debug)]
pub enum Argument {
    Steep(SteepArgs),
    Skim(SkimArgs),
    Fill(FillArgs),
}

impl Argument {
    /// Recover this argument as Steep configuration, if that is what it holds.
    pub fn as_steep(&self) -> (r: Option<SteepArgs>)
        ensures
            r == (match *self {
                Argument::Steep(a) => Some(a),
                _ => None::<SteepArgs>,
            }),
    {
        match self {
            Argument::Steep(a) => Some(*a),
            _ => None,
        }
    }

    /// Recover this argument as Skim configuration, if that is what it holds.
    pub fn as_skim(&self) -> (r: Option<SkimArgs>)
        ensures
            r == (match *self {
                Argument::Skim(a) => Some(a),
                _ => None::<SkimArgs>,
            }),
    {
        match self {
            Argument::Skim(a) => Some(*a),
            _ => None,
        }
    }

    /// Recover this argument as Fill configuration, if that is what it holds.
    pub fn as_fill(&self) -> (r: Option<FillArgs>)
        ensures
            r == (match *self {
                Argument::Fill(a) => Some(a),
                _ => None::<FillArgs>,
            }),
    {
        match self {
            Argument::Fill(a) => Some(*a),
            _ => None,
        }
    }
}

/// Why a stage or source rejected its unit of work. Such an error is local
/// to the batch that triggered it; it never destabilizes the pool.
#[derive(Clone, Copy, PartialEq, Eq, Structural, Debug)]
pub enum StageError {
    /// The transform needs an argument and the stage has none.
    MissingArgument,
    /// The stage's argument holds a different configuration type than the
    /// transform expects.
    ArgumentMismatch,
    /// The argument was recovered but its values are unusable (for a source:
    /// a batch size of zero).
    InvalidArgument,
}

/// The transform a stage applies to every record of its batch, drawn from a
/// closed set. Variants that read the stage's argument fail with a local
/// error when the argument is missing or of the wrong kind.
#[derive(Clone, Copy, PartialEq, Eq, Structural, Debug)]
pub enum Transform {
    /// Hand every record back unchanged (the conventional Pour transform).
    Identity,
    /// Add a fixed amount to the integer field, wrapping on overflow.
    AddConstant { amount: i32 },
    /// Add the argument's offset to the integer field, wrapping on overflow.
    AddOffset,
    /// Subtract the argument's offset from the integer field, wrapping on
    /// overflow.
    SubtractOffset,
    /// Clear a fixed field of every record.
    Clear { field: Field },
    /// Clear the field named by the argument.
    ClearSelected,
}

/// A transform resolved against a stage's argument: the per-record operation
/// that remains once configuration has been recovered.
#[derive(Clone, Copy, PartialEq, Eq, Structural, Debug)]
pub enum Op {
    Keep,
    Add(i32),
    Sub(i32),
    Erase(Field),
}

/// How a transform and an optional argument resolve to a record operation,
/// or to the error that execution reports.
pub open spec fn spec_resolve(t: Transform, params: Option<Argument>) -> Result<Op, StageError> {
    match t {
        Transform::Identity => Ok(Op::Keep),
        Transform::AddConstant { amount } => Ok(Op::Add(amount)),
        Transform::AddOffset => match params {
            None => Err(StageError::MissingArgument),
            Some(Argument::Steep(a)) => Ok(Op::Add(a.increment)),
            Some(_) => Err(StageError::ArgumentMismatch),
        },
        Transform::SubtractOffset => match params {
            None => Err(StageError::MissingArgument),
            Some(Argument::Steep(a)) => Ok(Op::Sub(a.increment)),
            Some(_) => Err(StageError::ArgumentMismatch),
        },
        Transform::Clear { field } => Ok(Op::Erase(field)),
        Transform::ClearSelected => match params {
            None => Err(StageError::MissingArgument),
            Some(Argument::Skim(a)) => Ok(Op::Erase(a.field)),
            Some(_) => Err(StageError::ArgumentMismatch),
        },
    }
}

/// What a record operation does to one record.
pub open spec fn spec_apply_op(op: Op, t: TeaView) -> TeaView {
    match op {
        Op::Keep => t,
        Op::Add(k) => TeaView {
            x: match t.x {
                Some(v) => Some(v.wrapping_add(k)),
                None => None,
            },
            ..t
        },
        Op::Sub(k) => TeaView {
            x: match t.x {
                Some(v) => Some(v.wrapping_sub(k)),
                None => None,
            },
            ..t
        },
        Op::Erase(f) => match f {
            Field::X => TeaView { x: None, ..t },
            Field::StrVal => TeaView { str_val: None, ..t },
            Field::Y => TeaView { y: None, ..t },
        },
    }
}

/// A record operation applied to every record of a batch, in order.
pub open spec fn spec_apply_batch(op: Op, batch: Seq<TeaView>) -> Seq<TeaView> {
    batch.map_values(|t: TeaView| spec_apply_op(op, t))
}

/// What one stage execution returns for a batch: the transformed batch, or
/// the error its transform's resolution reports.
pub open spec fn spec_run_stage(
    t: Transform,
    params: Option<Argument>,
    batch: Seq<TeaView>,
) -> Result<Seq<TeaView>, StageError> {
    match spec_resolve(t, params) {
        Ok(op) => Ok(spec_apply_batch(op, batch)),
        Err(e) => Err(e),
    }
}

/// The mathematical value of a stage result.
pub open spec fn result_view(r: Result<Vec<TextTea>, StageError>) -> Result<
    Seq<TeaView>,
    StageError,
> {
    match r {
        Ok(v) => Ok(batch_view(v@)),
        Err(e) => Err(e),
    }
}

fn resolve(t: &Transform, params: &Option<Argument>) -> (r: Result<Op, StageError>)
    ensures
        r == spec_resolve(*t, *params),
{
    match t {
        Transform::Identity => Ok(Op::Keep),
        Transform::AddConstant { amount } => Ok(Op::Add(*amount)),
        Transform::AddOffset => match params {
            None => Err(StageError::MissingArgument),
            Some(Argument::Steep(a)) => Ok(Op::Add(a.increment)),
            Some(_) => Err(StageError::ArgumentMismatch),
        },
        Transform::SubtractOffset => match params {
            None => Err(StageError::MissingArgument),
            Some(Argument::Steep(a)) => Ok(Op::Sub(a.increment)),
            Some(_) => Err(StageError::ArgumentMismatch),
        },
        Transform::Clear { field } => Ok(Op::Erase(*field)),
        Transform::ClearSelected => match params {
            None => Err(StageError::MissingArgument),
            Some(Argument::Skim(a)) => Ok(Op::Erase(a.field)),
            Some(_) => Err(StageError::ArgumentMismatch),
        },
    }
}

fn apply_op(op: Op, t: TextTea) -> (r: TextTea)
    ensures
        r@ == spec_apply_op(op, t@),
{
    match op {
        Op::Keep => t,
        Op::Add(k) => {
            let x: Option<i32> = match t.x {
                Some(v) => Some(v.wrapping_add(k)),
                None => None,
            };
            TextTea { x, ..t }
        },
        Op::Sub(k) => {
            let x: Option<i32> = match t.x {
                Some(v) => Some(v.wrapping_sub(k)),
                None => None,
            };
            TextTea { x, ..t }
        },
        Op::Erase(f) => match f {
            Field::X => TextTea { x: None, ..t },
            Field::StrVal => TextTea { str_val: None, ..t },
            Field::Y => TextTea { y: None, ..t },
        },
    }
}

/// The uniform execution mechanics every stage kind shares: resolve the
/// transform against the stage's argument, then apply the resulting record
/// operation to the whole batch in order.
pub fn run_transform(t: &Transform, params: &Option<Argument>, tea_batch: Vec<TextTea>) -> (r:
    Result<Vec<TextTea>, StageError>)
    ensures
        result_view(r) == spec_run_stage(*t, *params, batch_view(tea_batch@)),
{
    let op = match resolve(t, params) {
        Ok(op) => op,
        Err(e) => {
            return Err(e);
        },
    };
    let ghost orig = tea_batch@;
    let mut out: Vec<TextTea> = Vec::new();
    let mut batch = tea_batch;
    let n = batch.len();
    for i in 0..n
        invariant
            n == batch@.len(),
            batch@ == orig,
            out@.len() == i,
            forall|j: int| 0 <= j < i ==> out@[j]@ == spec_apply_op(op, orig[j]@),
    {
        let rec = batch[i].clone();
        out.push(apply_op(op, rec));
    }
    proof {
        assert(batch_view(out@) =~= spec_apply_batch(op, batch_view(orig)));
    }
    Ok(out)
}

/// Ingredient used to transform the records of a batch.
pub struct Steep {
    pub name: Arc<String>,
    pub computation: Transform,
    pub params: Option<Argument>,
}

/// Ingredient used to remove or clear fields of the records of a batch.
pub struct Skim {
    pub name: Arc<String>,
    pub computation: Transform,
    pub params: Option<Argument>,
}

/// Ingredient used to send the batch onward; conventionally it hands the
/// batch back unchanged, and completion is observed at the pool.
pub struct Pour {
    pub name: Arc<String>,
    pub computation: Transform,
    pub params: Option<Argument>,
}

/// Placeholder for a stage kind that would merge batches pulled from several
/// sources; reserved, not an executable stage.
pub struct Transfuse;

impl Steep {
    /// The argument, if any, this stage was configured with.
    pub fn get_params(&self) -> (r: &Option<Argument>)
        ensures
            *r == self.params,
    {
        &self.params
    }

    /// The name given to this stage.
    pub fn get_name(&self) -> (r: &str)
        ensures
            r@ == self.name@,
    {
        self.name.as_str()
    }

    /// Run this stage's transform, with its own argument, on a batch.
    pub fn exec(&self, tea_batch: Vec<TextTea>) -> (r: Result<Vec<TextTea>, StageError>)
        ensures
            result_view(r) == spec_run_stage(self.computation, self.params, batch_view(tea_batch@)),
    {
        run_transform(&self.computation, &self.params, tea_batch)
    }
}

impl Clone for Steep {
    fn clone(&self) -> (res: Self)
        ensures
            res == *self,
    {
        Steep { name: self.name.clone(), computation: self.computation, params: self.params }
    }
}

impl Skim {
    /// The argument, if any, this stage was configured with.
    pub fn get_params(&self) -> (r: &Option<Argument>)
        ensures
            *r == self.params,
    {
        &self.params
    }

    /// The name given to this stage.
    pub fn get_name(&self) -> (r: &str)
        ensures
            r@ == self.name@,
    {
        self.name.as_str()
    }

    /// Run this stage's transform, with its own argument, on a batch.
    pub fn exec(&self, tea_batch: Vec<TextTea>) -> (r: Result<Vec<TextTea>, StageError>)
        ensures
            result_view(r) == spec_run_stage(self.computation, self.params, batch_view(tea_batch@)),
    {
        run_transform(&self.computation, &self.params, tea_batch)
    }
}

impl Clone for Skim {
    fn clone(&self) -> (res: Self)
        ensures
            res == *self,
    {
        Skim { name: self.name.clone(), computation: self.computation, params: self.params }
    }
}

impl Pour {
    /// The argument, if any, this stage was configured with.
    pub fn get_params(&self) -> (r: &Option<Argument>)
        ensures
            *r == self.params,
    {
        &self.params
    }

    /// The name given to this stage.
    pub fn get_name(&self) -> (r: &str)
        ensures
            r@ == self.name@,
    {
        self.name.as_str()
    }

    /// Run this stage's transform, with its own argument, on a batch.
    pub fn exec(&self, tea_batch: Vec<TextTea>) -> (r: Result<Vec<TextTea>, StageError>)
        ensures
            result_view(r) == spec_run_stage(self.computation, self.params, batch_view(tea_batch@)),
    {
        run_transform(&self.computation, &self.params, tea_batch)
    }
}

impl Clone for Pour {
    fn clone(&self) -> (res: Self)
        ensures
            res == *self,
    {
        Pour { name: self.name.clone(), computation: self.computation, params: self.params }
    }
}

/// One step of a recipe: the closed sum of the executable stage kinds. The
/// kind fixes semantic intent and dispatch, never execution mechanics; all
/// kinds run their transform over the batch in the same way.
pub enum Ingredient {
    Steep(Steep),
    Skim(Skim),
    Pour(Pour),
}

/// What one recipe step returns for a batch.
pub open spec fn spec_stage(i: Ingredient, batch: Seq<TeaView>) -> Result<Seq<TeaView>, StageError> {
    match i {
        Ingredient::Steep(s) => spec_run_stage(s.computation, s.params, batch),
        Ingredient::Skim(s) => spec_run_stage(s.computation, s.params, batch),
        Ingredient::Pour(s) => spec_run_stage(s.computation, s.params, batch),
    }
}

impl Ingredient {
    /// Run this step on a batch, dispatching on its kind.
    pub fn exec(&self, tea_batch: Vec<TextTea>) -> (r: Result<Vec<TextTea>, StageError>)
        ensures
            result_view(r) == spec_stage(*self, batch_view(tea_batch@)),
    {
        match self {
            Ingredient::Steep(s) => s.exec(tea_batch),
            Ingredient::Skim(s) => s.exec(tea_batch),
            Ingredient::Pour(s) => s.exec(tea_batch),
        }
    }

    /// The name given to this step.
    pub fn get_name(&self) -> (r: &str)
        ensures
            r@ == (match *self {
                Ingredient::Steep(s) => s.name@,
                Ingredient::Skim(s) => s.name@,
                Ingredient::Pour(s) => s.name@,
            }),
    {
        match self {
            Ingredient::Steep(s) => s.get_name(),
            Ingredient::Skim(s) => s.get_name(),
            Ingredient::Pour(s) => s.get_name(),
        }
    }
}

impl Clone for Ingredient {
    fn clone(&self) -> (res: Self)
        ensures
            res == *self,
    {
        match self {
            Ingredient::Steep(s) => Ingredient::Steep(s.clone()),
            Ingredient::Skim(s) => Ingredient::Skim(s.clone()),
            Ingredient::Pour(s) => Ingredient::Pour(s.clone()),
        }
    }
}

/// A Pour stage with the identity transform and no argument hands back a
/// batch equal to its input.
pub proof fn lemma_pour_identity(p: Pour, batch: Seq<TeaView>)
    requires
        p.computation == Transform::Identity,
        p.params is None,
    ensures
        spec_stage(Ingredient::Pour(p), batch) == Ok::<Seq<TeaView>, StageError>(batch),
{
    assert(spec_apply_batch(Op::Keep, batch) =~= batch);
}

/// A Steep stage configured to subtract a numeric offset k succeeds on every
/// batch whose records hold an integer field, preserves the record count and
/// order, leaves the other fields of every record unchanged, and leaves every
/// output record holding x - k — exactly, wherever that difference does not
/// overflow the field.
pub proof fn lemma_steep_offset(s: Steep, k: i32, batch: Seq<TeaView>)
    requires
        s.computation == Transform::SubtractOffset,
        s.params == Some(Argument::Steep(SteepArgs { increment: k })),
    ensures
        spec_stage(Ingredient::Steep(s), batch) matches Ok(out) && {
            &&& out.len() == batch.len()
            &&& forall|j: int|
                0 <= j < batch.len() ==> {
                    &&& (#[trigger] out[j]).str_val == batch[j].str_val
                    &&& out[j].y == batch[j].y
                    &&& (batch[j].x matches Some(v) ==> out[j].x == Some(v.wrapping_sub(k)) && (
                    i32::MIN <= v - k <= i32::MAX ==> out[j].x == Some((v - k) as i32)))
                    &&& (batch[j].x is None ==> out[j].x is None)
                }
        },
{
}

/// A Skim stage with a field-selector argument clears exactly the selected
/// field of every record and leaves the other fields unchanged, preserving
/// the record count and order.
pub proof fn lemma_skim_clears(s: Skim, f: Field, batch: Seq<TeaView>)
    requires
        s.computation == Transform::ClearSelected,
        s.params == Some(Argument::Skim(SkimArgs { field: f })),
    ensures
        spec_stage(Ingredient::Skim(s), batch) matches Ok(out) && {
            &&& out.len() == batch.len()
            &&& forall|j: int|
                0 <= j < batch.len() ==> {
                    &&& (f == Field::X ==> (#[trigger] out[j]) == TeaView {
                        x: None,
                        ..batch[j]
                    })
                    &&& (f == Field::StrVal ==> out[j] == TeaView { str_val: None, ..batch[j] })
                    &&& (f == Field::Y ==> out[j] == TeaView { y: None, ..batch[j] })
                }
        },
{
}

} // verus!
