//! What can be asked of the service about a plugin.

use crate::util::api_helper::patch;
use crate::util::request::flag_or_null;
use crate::util::request::flag_or_null_view;
use crate::util::request::str_view;
use crate::util::request::text_or_null;
use crate::util::request::text_or_null_view;
use crate::util::request::updating;
use crate::util::request::Body;
use crate::util::request::Request;
use crate::util::text::decimal;
use crate::util::text::text_with_id;
use vstd::prelude::*;

verus! {

/// A plugin, or anything that knows the id of one.
pub trait Plugin {
    /// The id of the plugin, as contracts speak of it. Every implementor
    /// says what it is; of one that does not, nothing is known.
    open spec fn plugin_id(&self) -> i64 {
        arbitrary()
    }

    /// The id of the plugin.
    fn id(&self) -> (out: i64)
        ensures
            out == self.plugin_id(),
    ;

    /// Asks to change the name, the description and whether comments are
    /// enabled. What is not given is written as null.
    fn update(
        &self,
        name: Option<&str>,
        description: Option<&str>,
        comments_enabled: Option<bool>,
        cookie: Option<&str>,
    ) -> (out: Request)
        ensures
            out@ == updating(
                "https://develop.roblox.com/v1/plugins/"@ + decimal(self.plugin_id() as int),
                seq![
                    ("name"@, text_or_null_view(str_view(name))),
                    ("description"@, text_or_null_view(str_view(description))),
                    ("commentsEnabled"@, flag_or_null_view(comments_enabled)),
                ],
                str_view(cookie),
            ),
    {
        let body = Body::new().with("name", text_or_null(name)).with(
            "description",
            text_or_null(description),
        ).with("commentsEnabled", flag_or_null(comments_enabled));
        assert(body@ =~= seq![
            ("name"@, text_or_null_view(str_view(name))),
            ("description"@, text_or_null_view(str_view(description))),
            ("commentsEnabled"@, flag_or_null_view(comments_enabled)),
        ]);
        patch(text_with_id("https://develop.roblox.com/v1/plugins/", self.id()), body, cookie)
    }
}

} // verus!
