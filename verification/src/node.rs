//! Classification of a search result stored in the transposition table.

use vstd::prelude::*;

verus! {

/// A search value together with the kind of node that produced it: a
/// principal-variation node's value is exact, an all node's value is an
/// upper bound on the true value, and a cut node's value is a lower bound.
#[derive(Clone, Copy, PartialEq, Eq, Debug)]
pub enum NodeValue<T> {
    Principal { value: T },
    All { value: T },
    Cut { value: T },
}

impl<T> NodeValue<T> {
    /// An exact value from a principal-variation node.
    pub fn pv_node(value: T) -> (r: NodeValue<T>)
        ensures
            r == (NodeValue::Principal { value }),
    {
        NodeValue::Principal { value }
    }

    /// An upper bound from an all node.
    pub fn all_node(value: T) -> (r: NodeValue<T>)
        ensures
            r == (NodeValue::All { value }),
    {
        NodeValue::All { value }
    }

    /// A lower bound from a cut node.
    pub fn cut_node(value: T) -> (r: NodeValue<T>)
        ensures
            r == (NodeValue::Cut { value }),
    {
        NodeValue::Cut { value }
    }

    /// The stored value, whatever its classification.
    pub open spec fn value_spec(self) -> T {
        match self {
            NodeValue::Principal { value } => value,
            NodeValue::All { value } => value,
            NodeValue::Cut { value } => value,
        }
    }
}

} // verus!
