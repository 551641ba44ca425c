use vstd::prelude::*;

verus! {

/// The command-line arguments: a repository (URL or `owner/repo`) and whether to
/// dig even into repositories over the size guard.
#[derive(Debug, Clone)]
pub struct Args {
    pub repo: String,
    pub deep: bool,
}

} // verus!
