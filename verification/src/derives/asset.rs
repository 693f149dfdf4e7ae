//! What can be asked of the service about an asset.

use crate::util::api_helper::get;
use crate::util::request::fetching;
use crate::util::request::str_view;
use crate::util::request::Request;
use crate::util::text::decimal;
use crate::util::text::text_around_id;
use vstd::prelude::*;

verus! {

/// An asset, or anything that knows the id of one.
pub trait Asset {
    /// The id of the asset, as contracts speak of it. Every implementor
    /// says what it is; of one that does not, nothing is known.
    open spec fn asset_id(&self) -> i64 {
        arbitrary()
    }

    /// The id of the asset.
    fn id(&self) -> (out: i64)
        ensures
            out == self.asset_id(),
    ;

    /// Asks for the resale data of the asset.
    fn resale_data(&self, cookie: Option<&str>) -> (out: Request)
        ensures
            out@ == fetching(
                "https://economy.roblox.com/v1/assets/"@ + decimal(self.asset_id() as int)
                    + "/resale-data"@,
                str_view(cookie),
            ),
    {
        get(
            text_around_id("https://economy.roblox.com/v1/assets/", self.id(), "/resale-data"),
            cookie,
        )
    }
}

} // verus!
