//! Fully qualified block heights.

use vstd::prelude::*;

use crate::Error;

verus! {

/// A fully qualified block position: the chain's version (revision) number
/// together with a block index on that revision. A valid height always has a
/// block index of at least one; block numbering on a chain starts at one, so
/// an index of zero signals corrupt or unexpected chain data.
#[derive(Clone, Copy, PartialEq, Eq, Structural, Debug)]
pub struct Height {
    pub revision_number: u64,
    pub revision_height: u64,
}

impl Height {
    /// A well-formed height has a nonzero block index.
    pub open spec fn wf(self) -> bool {
        self.revision_height >= 1
    }

    /// Builds a fully qualified height from a chain version and a raw block
    /// height. Fails exactly when the block height is zero, which no chain
    /// reports for an included transaction.
    pub fn new(revision_number: u64, revision_height: u64) -> (r: Result<Height, Error>)
        ensures
            revision_height >= 1 ==> r == Result::<Height, Error>::Ok(Height {
                revision_number,
                revision_height,
            }),
            revision_height == 0 <==> r == Result::<Height, Error>::Err(Error::InvalidHeight),
            r matches Ok(h) ==> h.wf(),
    {
        if revision_height == 0 {
            Err(Error::InvalidHeight)
        } else {
            Ok(Height { revision_number, revision_height })
        }
    }
}

} // verus!
