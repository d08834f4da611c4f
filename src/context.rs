use vstd::prelude::*;
use vstd::string::*;

verus! {

/// A failure of the local store.
#[derive(Debug)]
pub struct ContextError {}

impl ContextError {
    pub fn to_string(&self) -> (r: String)
        ensures
            r@ == "ContextError"@,
    {
        String::from_str("ContextError")
    }
}

/// A path inside the store rooted at `root`.
pub open spec fn store_path_spec(root: Seq<char>, rel: Seq<char>) -> Seq<char> {
    root + "/"@ + rel
}

pub fn store_path(root: &str, rel: &str) -> (r: String)
    ensures
        r@ == store_path_spec(root@, rel@),
{
    let mut r = String::from_str(root);
    r.append("/");
    r.append(rel);
    r
}

/// The number of library downloads that run at once unless configured otherwise.
pub const DEFAULT_MAX_CONCURRENT: u8 = 16;

/// The number of asset downloads that run at once.
pub const ASSET_CONCURRENCY: usize = 16;

} // verus!
