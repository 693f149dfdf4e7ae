//! What can be asked of the service about a group.

use crate::util::api_helper::delete;
use crate::util::api_helper::get;
use crate::util::api_helper::patch;
use crate::util::api_helper::post;
use crate::util::paging::IdentityMapper;
use crate::util::paging::PageIterator;
use crate::util::paging::fresh_list;
use crate::util::request::creating;
use crate::util::request::fetching;
use crate::util::request::flag_or_null;
use crate::util::request::flag_or_null_view;
use crate::util::request::removing;
use crate::util::request::str_view;
use crate::util::request::updating;
use crate::util::request::Body;
use crate::util::request::FieldValue;
use crate::util::request::FieldValueView;
use crate::util::request::Request;
use crate::util::text::decimal;
use crate::util::text::text_around_id;
use crate::util::text::text_around_two_ids;
use crate::util::text::text_with_two_ids;
use vstd::prelude::*;

verus! {

/// The address of a group, under which all that concerns it is found.
pub open spec fn group_address(id: i64) -> Seq<char> {
    "https://groups.roblox.com/v1/groups/"@ + decimal(id as int)
}

/// A group, or anything that knows the id of one.
pub trait Group {
    /// The id of the group, as contracts speak of it. Every implementor
    /// says what it is; of one that does not, nothing is known.
    open spec fn group_id(&self) -> i64 {
        arbitrary()
    }

    /// The id of the group.
    fn id(&self) -> (out: i64)
        ensures
            out == self.group_id(),
    ;

    /// Asks to set the group's shout to `message`.
    fn update_shout(&mut self, message: String, cookie: Option<&str>) -> (out: Request)
        ensures
            out@ == updating(
                group_address(old(self).group_id()) + "/status"@,
                seq![("message"@, FieldValueView::Text(message@))],
                str_view(cookie),
            ),
            final(self).group_id() == old(self).group_id(),
    {
        let body = Body::new().with("message", FieldValue::Text(message));
        patch(
            text_around_id("https://groups.roblox.com/v1/groups/", self.id(), "/status"),
            body,
            cookie,
        )
    }

    /// Asks to let the user `user_id` into the group.
    fn accept_join_request(&self, user_id: i64, cookie: Option<&str>) -> (out: Request)
        ensures
            out@ == creating(
                group_address(self.group_id()) + "/join-requests/users/#"@ + decimal(
                    user_id as int,
                ),
                Seq::empty(),
                str_view(cookie),
            ),
    {
        post(
            text_with_two_ids(
                "https://groups.roblox.com/v1/groups/",
                self.id(),
                "/join-requests/users/#",
                user_id,
            ),
            Body::new(),
            cookie,
        )
    }

    /// Asks to turn down the join request of the user `user_id`.
    fn decline_join_request(&self, user_id: i64, cookie: Option<&str>) -> (out: Request)
        ensures
            out@ == removing(
                group_address(self.group_id()) + "/join-requests/users/"@ + decimal(user_id as int),
                str_view(cookie),
            ),
    {
        delete(
            text_with_two_ids(
                "https://groups.roblox.com/v1/groups/",
                self.id(),
                "/join-requests/users/",
                user_id,
            ),
            cookie,
        )
    }

    /// Asks to remove the user `user_id` from the group.
    fn kick(&self, user_id: i64, cookie: Option<&str>) -> (out: Request)
        ensures
            out@ == removing(
                group_address(self.group_id()) + "/users/"@ + decimal(user_id as int),
                str_view(cookie),
            ),
    {
        delete(
            text_with_two_ids("https://groups.roblox.com/v1/groups/", self.id(), "/users/", user_id),
            cookie,
        )
    }

    /// Asks for the roles of the group.
    fn roles(&self, cookie: Option<&str>) -> (out: Request)
        ensures
            out@ == fetching(group_address(self.group_id()) + "/roles"@, str_view(cookie)),
    {
        get(text_around_id("https://groups.roblox.com/v1/groups/", self.id(), "/roles"), cookie)
    }

    /// Asks to give the user `user_id` the role `role_id`.
    fn set_user_role(&self, user_id: i64, role_id: i64, cookie: Option<&str>) -> (out: Request)
        ensures
            out@ == updating(
                group_address(self.group_id()) + "/users/"@ + decimal(user_id as int),
                seq![("roleId"@, FieldValueView::Int(role_id))],
                str_view(cookie),
            ),
    {
        let body = Body::new().with("roleId", FieldValue::Int(role_id));
        patch(
            text_with_two_ids("https://groups.roblox.com/v1/groups/", self.id(), "/users/", user_id),
            body,
            cookie,
        )
    }

    /// The members of the group, as a lazy list.
    fn members<T>(&self, cookie: Option<&str>) -> (out: PageIterator<T, T, IdentityMapper>)
        ensures
            out@ == fresh_list::<T>(group_address(self.group_id()) + "/users"@, str_view(cookie)),
    {
        PageIterator::new(
            text_around_id("https://groups.roblox.com/v1/groups/", self.id(), "/users"),
            IdentityMapper,
            cookie,
        )
    }

    /// Asks for the settings of the group.
    fn settings(&self, cookie: Option<&str>) -> (out: Request)
        ensures
            out@ == fetching(group_address(self.group_id()) + "/settings"@, str_view(cookie)),
    {
        get(text_around_id("https://groups.roblox.com/v1/groups/", self.id(), "/settings"), cookie)
    }

    /// Asks to change the settings of the group. A setting that is not given
    /// is written as null.
    fn update_settings(
        &self,
        is_approval_required: Option<bool>,
        are_enemies_allowed: Option<bool>,
        are_group_funds_visible: Option<bool>,
        are_group_games_visible: Option<bool>,
        cookie: Option<&str>,
    ) -> (out: Request)
        ensures
            out@ == updating(
                group_address(self.group_id()) + "/settings"@,
                seq![
                    ("isApprovalRequired"@, flag_or_null_view(is_approval_required)),
                    ("areEnemiesAllowed"@, flag_or_null_view(are_enemies_allowed)),
                    ("areGroupFundsVisible"@, flag_or_null_view(are_group_funds_visible)),
                    ("areGroupGamesVisible"@, flag_or_null_view(are_group_games_visible)),
                ],
                str_view(cookie),
            ),
    {
        let body = Body::new().with("isApprovalRequired", flag_or_null(is_approval_required)).with(
            "areEnemiesAllowed",
            flag_or_null(are_enemies_allowed),
        ).with("areGroupFundsVisible", flag_or_null(are_group_funds_visible)).with(
            "areGroupGamesVisible",
            flag_or_null(are_group_games_visible),
        );
        assert(body@ =~= seq![
            ("isApprovalRequired"@, flag_or_null_view(is_approval_required)),
            ("areEnemiesAllowed"@, flag_or_null_view(are_enemies_allowed)),
            ("areGroupFundsVisible"@, flag_or_null_view(are_group_funds_visible)),
            ("areGroupGamesVisible"@, flag_or_null_view(are_group_games_visible)),
        ]);
        patch(
            text_around_id("https://groups.roblox.com/v1/groups/", self.id(), "/settings"),
            body,
            cookie,
        )
    }

    /// Asks to delete every wall post of the user `user_id`.
    fn delete_all_wall_posts_from_user(&self, user_id: i64, cookie: Option<&str>) -> (out: Request)
        ensures
            out@ == removing(
                group_address(self.group_id()) + "/wall/users/"@ + decimal(user_id as int)
                    + "/posts"@,
                str_view(cookie),
            ),
    {
        delete(
            text_around_two_ids(
                "https://groups.roblox.com/v1/groups/",
                self.id(),
                "/wall/users/",
                user_id,
                "/posts",
            ),
            cookie,
        )
    }

    /// Asks to delete the wall post `wall_post_id`.
    fn delete_wall_post(&self, wall_post_id: i64, cookie: Option<&str>) -> (out: Request)
        ensures
            out@ == removing(
                group_address(self.group_id()) + "/wall/posts/"@ + decimal(wall_post_id as int),
                str_view(cookie),
            ),
    {
        delete(
            text_with_two_ids(
                "https://groups.roblox.com/v1/groups/",
                self.id(),
                "/wall/posts/",
                wall_post_id,
            ),
            cookie,
        )
    }

    /// The wall posts of the group, as a lazy list.
    fn wall_posts<T>(&self, cookie: Option<&str>) -> (out: PageIterator<T, T, IdentityMapper>)
        ensures
            out@ == fresh_list::<T>(
                "https://groups.roblox.com/v2/groups/"@ + decimal(self.group_id() as int)
                    + "/wall/posts"@,
                str_view(cookie),
            ),
    {
        PageIterator::new(
            text_around_id("https://groups.roblox.com/v2/groups/", self.id(), "/wall/posts"),
            IdentityMapper,
            cookie,
        )
    }

    /// The pending join requests of the group, as a lazy list.
    fn join_requests<T>(&self, cookie: Option<&str>) -> (out: PageIterator<T, T, IdentityMapper>)
        ensures
            out@ == fresh_list::<T>(
                group_address(self.group_id()) + "/join-requests"@,
                str_view(cookie),
            ),
    {
        PageIterator::new(
            text_around_id("https://groups.roblox.com/v1/groups/", self.id(), "/join-requests"),
            IdentityMapper,
            cookie,
        )
    }

    /// Asks for the social links of the group.
    fn social_links(&self, cookie: Option<&str>) -> (out: Request)
        ensures
            out@ == fetching(group_address(self.group_id()) + "/social-links"@, str_view(cookie)),
    {
        get(
            text_around_id("https://groups.roblox.com/v1/groups/", self.id(), "/social-links"),
            cookie,
        )
    }

    /// Asks for the join request of the user `user_id`, if there is one.
    fn join_request_from_user(&self, user_id: i64, cookie: Option<&str>) -> (out: Request)
        ensures
            out@ == fetching(
                group_address(self.group_id()) + "/join-requests/users/"@ + decimal(user_id as int),
                str_view(cookie),
            ),
    {
        get(
            text_with_two_ids(
                "https://groups.roblox.com/v1/groups/",
                self.id(),
                "/join-requests/users/",
                user_id,
            ),
            cookie,
        )
    }
}

} // verus!
