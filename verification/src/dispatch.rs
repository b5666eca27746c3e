//! Completing a stored action with an operator's result.

use vstd::prelude::*;

verus! {

/// An action that may take an operator's result.
///
/// A requester binds an action to its request. When the operator answers,
/// the action is asked for the action that delivers the answer. Exactly one
/// shape of action is expected to do so; any other yields `None`. An
/// implementation says which shape that is and what delivering means for
/// it; of one that does not, nothing is known.
pub trait CallbackWithParameter: Sized {
    /// Whether this action has the shape that takes a result.
    open spec fn takes_result(&self) -> bool {
        arbitrary()
    }

    /// Whether this action is `stored` completed with `result`: the action
    /// that delivers these bytes where `stored` was bound.
    open spec fn delivers(&self, stored: &Self, result: Seq<u8>) -> bool {
        arbitrary()
    }

    /// Builds the action that delivers `result`, or `None` where this action
    /// does not take one.
    fn with_result(&self, result: Vec<u8>) -> (completed: Option<Self>)
        ensures
            completed is Some <==> self.takes_result(),
            match completed {
                Some(action) => action.delivers(self, result@),
                None => true,
            },
    ;
}

} // verus!
