use vstd::prelude::*;

use crate::status::STATUS_SUCCESS;

verus! {

/// The compartment could not be loaded or initialised.
#[derive(Clone, Copy, Debug, PartialEq, Eq, Structural)]
pub struct CreationError {
    pub status: u32,
}

/// A live, initialised compartment. Its identity addresses every boundary
/// call; the handle is consumed when it is destroyed, so it cannot be
/// destroyed twice or used afterwards.
#[derive(Debug)]
pub struct Compartment {
    id: u64,
}

impl Compartment {
    pub closed spec fn spec_id(&self) -> u64 {
        self.id
    }

    /// Takes what the runtime reported on creating a compartment: its status
    /// and, on success, the identity it assigned.
    pub fn launched(status: u32, id: u64) -> (r: Result<Compartment, CreationError>)
        ensures
            status == STATUS_SUCCESS ==> (r matches Ok(c) && c.spec_id() == id),
            status != STATUS_SUCCESS ==> r == Err::<Compartment, CreationError>(
                CreationError { status },
            ),
    {
        if status == STATUS_SUCCESS {
            Ok(Compartment { id })
        } else {
            Err(CreationError { status })
        }
    }

    /// The identity to carry in boundary calls.
    pub fn id(&self) -> (r: u64)
        ensures
            r == self.spec_id(),
    {
        self.id
    }

    /// Ends the handle's life and gives back the identity that the runtime
    /// must tear down.
    pub fn destroy(self) -> (r: u64)
        ensures
            r == self.spec_id(),
    {
        self.id
    }
}

} // verus!
