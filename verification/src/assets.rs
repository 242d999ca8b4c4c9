//! Selection of the bundled static-asset directory: the first candidate under
//! the application's resource root that holds an `index.html`.

use vstd::prelude::*;
use crate::errors::SupervisorError;

verus! {

/// The candidate relative paths searched for bundled web assets, in order.
pub fn asset_candidates() -> (r: Vec<String>)
    ensures
        r@.len() == 2,
        r@[0]@ == "web-dist"@,
        r@[1]@ == "resources/web-dist"@,
{
    let mut v: Vec<String> = Vec::new();
    v.push(String::from_str("web-dist"));
    v.push(String::from_str("resources/web-dist"));
    v
}

/// Picks the first candidate directory that holds an `index.html`.
/// `has_index[i]` says whether candidate `i` does; the result is its index,
/// or `AssetsMissing` when no candidate qualifies.
pub fn select_asset_dir(has_index: &Vec<bool>) -> (r: Result<usize, SupervisorError>)
    ensures
        r is Ok <==> exists|k: int| 0 <= k < has_index@.len() && has_index@[k],
        r matches Ok(i) ==> i < has_index@.len() && has_index@[i as int] && forall|k: int|
            0 <= k < i ==> !has_index@[k],
        r matches Err(e) ==> e == SupervisorError::AssetsMissing,
{
    let mut i: usize = 0;
    while i < has_index.len()
        invariant
            0 <= i <= has_index@.len(),
            forall|k: int| 0 <= k < i ==> !has_index@[k],
        decreases has_index@.len() - i,
    {
        if has_index[i] {
            return Ok(i);
        }
        i = i + 1;
    }
    Err(SupervisorError::AssetsMissing)
}

} // verus!
