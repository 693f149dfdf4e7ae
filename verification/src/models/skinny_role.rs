//! Group roles in the short form in which other replies mention them.

use vstd::prelude::*;

verus! {

/// A role of a group as other replies mention it.
#[derive(Debug, Clone)]
pub struct SkinnyRole {
    pub id: i64,
    pub name: String,
    pub rank: i64,
}

} // verus!
