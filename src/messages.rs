use vstd::prelude::*;
use vstd::string::*;

use crate::object::{hex_text, ObjectId};

verus! {

/// The reflog message for moving the branch named `name` to `target`.
pub fn fast_forward_message(name: &str, target: ObjectId) -> (r: String)
    ensures
        r@ == "Fast-Forward: Setting "@ + name@ + " to id: "@ + hex_text(target.bytes@),
{
    let mut m = "Fast-Forward: Setting ".to_owned();
    m.append(name);
    m.append(" to id: ");
    let h = target.hex();
    m.append(h.as_str());
    m
}

/// The reflog message for creating the branch `branch` at `target`.
pub fn create_branch_message(branch: &str, target: ObjectId) -> (r: String)
    ensures
        r@ == "Setting "@ + branch@ + " to "@ + hex_text(target.bytes@),
{
    let mut m = "Setting ".to_owned();
    m.append(branch);
    m.append(" to ");
    let h = target.hex();
    m.append(h.as_str());
    m
}

/// The message of the merge commit whose parents are `first` (the local tip)
/// then `second` (the fetched commit).
pub fn merge_message(first: ObjectId, second: ObjectId) -> (r: String)
    ensures
        r@ == "Merge: "@ + hex_text(second.bytes@) + " into "@ + hex_text(first.bytes@),
{
    let mut m = "Merge: ".to_owned();
    let s = second.hex();
    m.append(s.as_str());
    m.append(" into ");
    let f = first.hex();
    m.append(f.as_str());
    m
}

} // verus!
