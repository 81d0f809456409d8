//! The hardware phone line, modeled by what the engine reads from it.
//!
//! The engine only ever consumes discrete input symbols from the line, so
//! the model of a phone is the queue of symbols it will deliver, in
//! order. All locking and sharing of the real line stays outside the
//! verified core, which is strictly single-threaded per tick.

use vstd::prelude::*;

use crate::states::Input;

verus! {

/// A handle to the phone line; its mathematical content is the queue of
/// input symbols the line will deliver.
pub struct Phone {
    pending: Vec<Input>,
}

impl View for Phone {
    type V = Seq<Input>;

    closed spec fn view(&self) -> Seq<Input> {
        self.pending@
    }
}

impl Phone {
    /// An idle line that will deliver no input.
    pub fn idle() -> (r: Phone)
        ensures
            r@ == Seq::<Input>::empty(),
    {
        let phone = Phone { pending: Vec::new() };
        proof {
            assert(phone@ =~= Seq::<Input>::empty());
        }
        phone
    }

    /// A line that will deliver the given symbols, in order.
    pub fn with_pending(pending: Vec<Input>) -> (r: Phone)
        ensures
            r@ == pending@,
    {
        Phone { pending }
    }

    /// The symbols the line still has to deliver.
    pub fn pending(&self) -> (r: &Vec<Input>)
        ensures
            r@ == self@,
    {
        &self.pending
    }
}

} // verus!
