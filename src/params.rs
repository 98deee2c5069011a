use vstd::prelude::*;

verus! {

/// What a run is asked to do.
pub struct Params {
    /// Delete each backup once its file has been rewritten.
    pub nobackup: bool,
    /// The files to process, in order.
    pub files: Vec<String>,
}

} // verus!
