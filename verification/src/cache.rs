use vstd::prelude::*;

verus! {

/// A failure of the cache, as text.
#[derive(Debug)]
pub struct CacheError {
    pub detail: String,
}

} // verus!
