use vstd::prelude::*;

verus! {

/// The electrical level of one digital pin of the expander.
#[derive(Clone, Copy, Debug, PartialEq, Eq, Structural)]
pub enum Level {
    Low,
    High,
}

} // verus!
