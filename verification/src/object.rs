//! Identities of the objects that live in the native runtime.

use vstd::prelude::*;

verus! {

/// The address of a native object (a device, a drawable, a render-pass
/// descriptor, a pipeline state, a command queue). Address zero stands for
/// "no object".
#[derive(Clone, Copy, PartialEq, Eq, Structural, Hash, Debug)]
pub struct ObjectId(pub usize);

impl ObjectId {
    /// Whether this is "no object".
    pub open spec fn spec_is_nil(self) -> bool {
        self.0 == 0
    }

    /// "No object".
    pub fn nil() -> (id: ObjectId)
        ensures
            id == ObjectId(0),
            id.is_nil(),
    {
        ObjectId(0)
    }

    /// Whether this is "no object".
    #[verifier::when_used_as_spec(spec_is_nil)]
    pub fn is_nil(self) -> (nil: bool)
        ensures
            nil == self.is_nil(),
    {
        self.0 == 0
    }
}

} // verus!
