//! Shapes of replies that the core itself looks into.

use crate::util::paging::PageMapper;
use vstd::prelude::*;

verus! {

/// One entry of a user's name history.
#[derive(Debug)]
pub struct UsernameHistoryResponse {
    pub name: String,
}

/// The mapping that keeps the name of an entry of a name history.
#[derive(Clone, Copy, Debug)]
pub struct UsernameOf;

impl PageMapper<UsernameHistoryResponse, String> for UsernameOf {
    open spec fn mapped(&self, item: UsernameHistoryResponse) -> String {
        item.name
    }

    fn map_item(&self, item: UsernameHistoryResponse) -> (out: String) {
        item.name
    }
}

} // verus!
