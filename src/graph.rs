use vstd::prelude::*;

use crate::ratio::Ratio;

verus! {

/// A function that can be sampled point by point, for instance to draw it.
pub trait Graphable {
    /// The parameters of `self` are valid, so that it can be sampled.
    spec fn graph_ready(&self) -> bool;

    /// The value at `x`, or `None` where the function is undefined.
    spec fn graph(&self, x: (int, int)) -> Option<(int, int)>;

    /// Evaluates the function at `x`.
    fn f(&self, x: &Ratio) -> (r: Option<Ratio>)
        requires
            self.graph_ready(),
            x.in_range(),
        ensures
            match r {
                Some(v) => v.wf() && self.graph(x@) == Some(v@),
                None => self.graph(x@) is None,
            },
    ;
}

} // verus!
