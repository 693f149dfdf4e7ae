//! What can be asked of the service about a user.

use crate::util::api_helper::get;
use crate::util::paging::fresh_list;
use crate::util::paging::PageIterator;
use crate::util::request::fetching;
use crate::util::request::Request;
use crate::util::responses::UsernameHistoryResponse;
use crate::util::responses::UsernameOf;
use crate::util::text::decimal;
use crate::util::text::text_around_id;
use vstd::prelude::*;

verus! {

/// The address under which the size of one circle of a user is found: its
/// friends, its followers, or those it follows.
pub open spec fn count_address(user_id: i64, channel: Seq<char>) -> Seq<char> {
    "https://friends.roblox.com/v1/users/"@ + decimal(user_id as int) + "/"@ + channel + "/count"@
}

/// Asks how many users are in one circle of the user `user_id`.
pub fn get_generic_count(user_id: i64, channel: &str) -> (out: Request)
    ensures
        out@ == fetching(count_address(user_id, channel@), None),
{
    let mut url = text_around_id("https://friends.roblox.com/v1/users/", user_id, "/");
    url.append(channel);
    url.append("/count");
    get(url, None)
}

/// A user, or anything that knows the id of one.
pub trait User {
    /// The id of the user, as contracts speak of it. Every implementor
    /// says what it is; of one that does not, nothing is known.
    open spec fn user_id(&self) -> i64 {
        arbitrary()
    }

    /// The id of the user.
    fn id(&self) -> (out: i64)
        ensures
            out == self.user_id(),
    ;

    /// Asks how much currency the user holds.
    fn currency(&self) -> (out: Request)
        ensures
            out@ == fetching(
                "https://economy.roblox.com/v1/users/"@ + decimal(self.user_id() as int)
                    + "/currency"@,
                None,
            ),
    {
        get(text_around_id("https://economy.roblox.com/v1/users/", self.id(), "/currency"), None)
    }

    /// Asks whether the user has a premium membership.
    fn has_premium(&self) -> (out: Request)
        ensures
            out@ == fetching(
                "https://premiumfeatures.roblox.com/v1/users/"@ + decimal(self.user_id() as int)
                    + "/validate-membership"@,
                None,
            ),
    {
        get(
            text_around_id(
                "https://premiumfeatures.roblox.com/v1/users/",
                self.id(),
                "/validate-membership",
            ),
            None,
        )
    }

    /// Asks how many friends the user has.
    fn friend_count(&self) -> (out: Request)
        ensures
            out@ == fetching(count_address(self.user_id(), "friends"@), None),
    {
        get_generic_count(self.id(), "friends")
    }

    /// Asks how many users follow the user.
    fn follower_count(&self) -> (out: Request)
        ensures
            out@ == fetching(count_address(self.user_id(), "followers"@), None),
    {
        get_generic_count(self.id(), "followers")
    }

    /// Asks how many users the user follows.
    fn following_count(&self) -> (out: Request)
        ensures
            out@ == fetching(count_address(self.user_id(), "followings"@), None),
    {
        get_generic_count(self.id(), "followings")
    }

    /// The names the user has had, as a lazy list.
    fn username_history(&self) -> (out: PageIterator<UsernameHistoryResponse, String, UsernameOf>)
        ensures
            out@ == fresh_list::<String>(
                "https://users.roblox.com/v1/users/"@ + decimal(self.user_id() as int)
                    + "/username-history"@,
                None,
            ),
    {
        PageIterator::new(
            text_around_id("https://users.roblox.com/v1/users/", self.id(), "/username-history"),
            UsernameOf,
            None,
        )
    }

    /// Asks for the groups the user is in, with the user's role in each.
    fn group_roles(&self) -> (out: Request)
        ensures
            out@ == fetching(
                "https://groups.roblox.com/v2/users/"@ + decimal(self.user_id() as int)
                    + "/groups/roles"@,
                None,
            ),
    {
        get(
            text_around_id("https://groups.roblox.com/v2/users/", self.id(), "/groups/roles"),
            None,
        )
    }
}

} // verus!
