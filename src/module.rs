//! A module binds a runner to one functional area of the chain.
use vstd::prelude::*;
use crate::runner::Runner;

verus! {

/// A typed set of operations over a borrowed runner.
pub trait Module<'a, R: Runner>: Sized {
    /// The runner that the module sends its calls to.
    spec fn runner_of(&self) -> &'a R;

    fn new(runner: &'a R) -> (r: Self)
        ensures
            r.runner_of() == runner,
    ;
}

} // verus!
