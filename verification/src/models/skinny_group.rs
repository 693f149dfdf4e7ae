//! Groups in the short form in which other replies mention them.

use crate::derives::group::Group;
use vstd::prelude::*;

verus! {

/// A group as other replies mention it.
#[derive(Debug, Clone)]
pub struct SkinnyGroup {
    pub id: i64,
    pub name: String,
    pub has_verified_badge: bool,
}

/// A group as other replies mention it, with the number of its members.
#[derive(Debug, Clone)]
pub struct SkinnyGroupWithMemberCount {
    pub id: i64,
    pub name: String,
    pub member_count: i64,
    pub has_verified_badge: bool,
}

impl Group for SkinnyGroup {
    open spec fn group_id(&self) -> i64 {
        self.id
    }

    fn id(&self) -> (out: i64) {
        self.id
    }
}

} // verus!
