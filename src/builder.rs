use vstd::prelude::*;
use crate::value::{keys, Json};

verus! {

/// Why a leaf could not be finished.
#[derive(Clone, Copy, Debug, PartialEq, Eq)]
pub enum BuildError {
    /// The leaf named `leaf` was finished before its required attribute `field` was set.
    MissingRequiredField { leaf: &'static str, field: &'static str },
}

/// What every leaf's accumulator states about the leaf it builds.
pub trait LeafBuilder {
    /// The first required attribute, in declaration order, that is not set.
    spec fn missing(&self) -> Option<&'static str>;

    /// Every required attribute is set and every optional one is absent.
    spec fn only_required(&self) -> bool;

    /// The external names of the required attributes, after the leaf's own
    /// discriminator where it has one, in render order.
    spec fn required_keys() -> Seq<Seq<char>>;

    /// What the finished leaf renders to.
    spec fn built_model(&self) -> Json;

    /// A leaf built from its required attributes alone renders exactly their
    /// external names (and its own discriminator), with no other key.
    proof fn lemma_minimal_render(&self)
        requires
            self.only_required(),
        ensures
            keys(self.built_model()) == Self::required_keys(),
    ;
}

} // verus!
