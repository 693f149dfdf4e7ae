//! What can be asked of the service about a universe.

use crate::util::api_helper::get;
use crate::util::paging::fresh_list;
use crate::util::paging::IdentityMapper;
use crate::util::paging::PageIterator;
use crate::util::request::fetching;
use crate::util::request::str_view;
use crate::util::request::Request;
use crate::util::text::decimal;
use crate::util::text::text_around_id;
use vstd::prelude::*;

verus! {

/// The address of a universe among the games.
pub open spec fn game_address(id: i64) -> Seq<char> {
    "https://games.roblox.com/v1/games/"@ + decimal(id as int)
}

/// A universe, or anything that knows the id of one.
pub trait Universe {
    /// The id of the universe, as contracts speak of it. Every implementor
    /// says what it is; of one that does not, nothing is known.
    open spec fn universe_id(&self) -> i64 {
        arbitrary()
    }

    /// The id of the universe.
    fn id(&self) -> (out: i64)
        ensures
            out == self.universe_id(),
    ;

    /// Asks how many users have the universe among their favorites.
    fn favorite_count(&self, cookie: Option<&str>) -> (out: Request)
        ensures
            out@ == fetching(
                game_address(self.universe_id()) + "/favorites/count"@,
                str_view(cookie),
            ),
    {
        get(
            text_around_id("https://games.roblox.com/v1/games/", self.id(), "/favorites/count"),
            cookie,
        )
    }

    /// The badges of the universe, as a lazy list.
    fn badges<T>(&self, cookie: Option<&str>) -> (out: PageIterator<T, T, IdentityMapper>)
        ensures
            out@ == fresh_list::<T>(
                "https://badges.roblox.com/v1/universes/"@ + decimal(self.universe_id() as int)
                    + "/badges"@,
                str_view(cookie),
            ),
    {
        PageIterator::new(
            text_around_id("https://badges.roblox.com/v1/universes/", self.id(), "/badges"),
            IdentityMapper,
            cookie,
        )
    }

    /// Asks for the live statistics of the universe.
    fn live_stats(&self, cookie: Option<&str>) -> (out: Request)
        ensures
            out@ == fetching(
                "https://develop.roblox.com/v1/universes/"@ + decimal(self.universe_id() as int)
                    + "/live-stats"@,
                str_view(cookie),
            ),
    {
        get(
            text_around_id("https://develop.roblox.com/v1/universes/", self.id(), "/live-stats"),
            cookie,
        )
    }

    /// The game passes of the universe, as a lazy list.
    fn gamepasses<T>(&self, cookie: Option<&str>) -> (out: PageIterator<T, T, IdentityMapper>)
        ensures
            out@ == fresh_list::<T>(
                game_address(self.universe_id()) + "/game-passes"@,
                str_view(cookie),
            ),
    {
        PageIterator::new(
            text_around_id("https://games.roblox.com/v1/games/", self.id(), "/game-passes"),
            IdentityMapper,
            cookie,
        )
    }

    /// Asks for the social links of the universe.
    fn social_links(&self, cookie: Option<&str>) -> (out: Request)
        ensures
            out@ == fetching(
                game_address(self.universe_id()) + "/social-links/list"@,
                str_view(cookie),
            ),
    {
        get(
            text_around_id("https://games.roblox.com/v1/games/", self.id(), "/social-links/list"),
            cookie,
        )
    }
}

} // verus!
