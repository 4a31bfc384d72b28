use vstd::prelude::*;
use crate::error::Error;

verus! {

/// The outcome of using, on the context `context`, a resource made by the context
/// `owner`: a resource of another context is refused with `InvalidResource`.
pub open spec fn spec_check_owner(context: u64, owner: u64) -> Result<(), Error> {
    if owner == context {
        Ok(())
    } else {
        Err(Error::InvalidResource)
    }
}

/// Checks that a resource made by the context `owner` can be used on the context
/// `context`.
pub fn check_owner(context: u64, owner: u64) -> (r: Result<(), Error>)
    ensures
        r == spec_check_owner(context, owner),
{
    if owner == context {
        Ok(())
    } else {
        Err(Error::InvalidResource)
    }
}

} // verus!
