//! Records ("tea") that flow through the pipeline, and their mathematical
//! model. A batch is an ordered sequence of records and is the unit of work
//! submitted to the worker pool.

use vstd::prelude::*;

verus! {

/// Capability marker for record types that the pipeline can carry across
/// worker threads.
pub trait Tea: Send {

}

/// The record type processed by the pipeline: a small document with an
/// integer field, a text field and a flag. Each field may be absent, so a
/// narrowing stage can clear one without touching the others.
#[derive(Debug, PartialEq, Eq)]
pub struct TextTea {
    pub x: Option<i32>,
    pub str_val: Option<String>,
    pub y: Option<bool>,
}

impl Tea for TextTea {

}

/// Mathematical value of a record: the text field is abstracted to its
/// character sequence.
pub ghost struct TeaView {
    pub x: Option<i32>,
    pub str_val: Option<Seq<char>>,
    pub y: Option<bool>,
}

impl View for TextTea {
    type V = TeaView;

    open spec fn view(&self) -> TeaView {
        TeaView {
            x: self.x,
            str_val: match self.str_val {
                Some(s) => Some(s@),
                None => None,
            },
            y: self.y,
        }
    }
}

impl Clone for TextTea {
    fn clone(&self) -> (res: Self)
        ensures
            res@ == self@,
    {
        let str_val: Option<String> = match &self.str_val {
            Some(s) => Some(s.clone()),
            None => None,
        };
        TextTea { x: self.x, str_val, y: self.y }
    }
}

impl Default for TextTea {
    /// A record with every field absent.
    fn default() -> (res: Self)
        ensures
            res@.x is None,
            res@.str_val is None,
            res@.y is None,
    {
        TextTea { x: None, str_val: None, y: None }
    }
}

/// The mathematical value of a batch: the sequence of its records' values.
pub open spec fn batch_view(batch: Seq<TextTea>) -> Seq<TeaView> {
    batch.map_values(|t: TextTea| t@)
}

} // verus!
