//! The entry points of the client: setting the shared credential, naming a
//! resource by its id, and the requests that look resources up.

use crate::bases::BaseAsset;
use crate::bases::BaseGroup;
use crate::bases::BasePlugin;
use crate::bases::BaseUniverse;
use crate::bases::BaseUser;
use crate::util::api_helper;
use crate::util::credentials::cookie_header;
use crate::util::credentials::cookie_name;
use crate::util::credentials::CredentialState;
use crate::util::headers::is_header_value;
use crate::util::paging::fresh_list;
use crate::util::paging::IdentityMapper;
use crate::util::paging::PageIterator;
use crate::util::request::creating;
use crate::util::request::fetching;
use crate::util::request::str_view;
use crate::util::request::strs_view;
use crate::util::request::Body;
use crate::util::request::FieldValue;
use crate::util::request::FieldValueView;
use crate::util::request::Request;
use crate::util::text::comma_separated;
use crate::util::text::decimal;
use crate::util::text::owned_texts;
use crate::util::text::push_comma_separated;
use crate::util::text::text_around_id;
use crate::util::text::text_with_id;
use vstd::prelude::*;

verus! {

/// Writes a list of ids as `1,2,3`, the form in which the multi-get
/// endpoints take them.
pub fn ids_to_string(ids: Vec<i64>) -> (out: String)
    ensures
        out@ == comma_separated(ids@),
{
    let mut out = String::new();
    push_comma_separated(&mut out, &ids);
    out
}

/// Writes `prefix`, then a list of ids separated by commas.
fn text_with_ids(prefix: &str, ids: &Vec<i64>) -> (out: String)
    ensures
        out@ == prefix@ + comma_separated(ids@),
{
    let mut out = String::from_str(prefix);
    push_comma_separated(&mut out, ids);
    out
}

/// The list that holds `id` and nothing else.
fn only(id: i64) -> (out: Vec<i64>)
    ensures
        out@ == seq![id],
{
    let mut out: Vec<i64> = Vec::new();
    out.push(id);
    out
}

/// Replaces the session cookie of the shared state for all later requests
/// that bring no credential of their own.
pub fn set_roblosecurity(credentials: &mut CredentialState, roblosecurity: &str)
    requires
        is_header_value(roblosecurity@),
    ensures
        final(credentials)@ == old(credentials)@.insert(
            cookie_name(),
            cookie_header(roblosecurity@),
        ),
{
    api_helper::set_roblosecurity(credentials, roblosecurity);
}

/// The users whose name matches `keyword`, as a lazy list.
pub fn search_users<T>(keyword: &str) -> (out: PageIterator<T, T, IdentityMapper>)
    ensures
        out@ == fresh_list::<T>(
            "https://users.roblox.com/v1/users/search?keyword="@ + keyword@,
            None,
        ),
{
    let mut url = String::from_str("https://users.roblox.com/v1/users/search?keyword=");
    url.append(keyword);
    PageIterator::new(url, IdentityMapper, None)
}

/// The plugin with this id.
pub fn base_plugin(plugin_id: i64) -> (out: BasePlugin)
    ensures
        out.id == plugin_id,
{
    BasePlugin { id: plugin_id }
}

/// The group with this id.
pub fn base_group(group_id: i64) -> (out: BaseGroup)
    ensures
        out.id == group_id,
{
    BaseGroup { id: group_id }
}

/// The user with this id.
pub fn base_user(user_id: i64) -> (out: BaseUser)
    ensures
        out.id == user_id,
{
    BaseUser { id: user_id }
}

/// The universe with this id.
pub fn base_universe(universe_id: i64) -> (out: BaseUniverse)
    ensures
        out.id == universe_id,
{
    BaseUniverse { id: universe_id }
}

/// The asset with this id.
pub fn base_asset(asset_id: i64) -> (out: BaseAsset)
    ensures
        out.id == asset_id,
{
    BaseAsset { id: asset_id }
}

/// Asks who the presented credential belongs to.
pub fn authenticated_user(cookie: Option<&str>) -> (out: Request)
    ensures
        out@ == fetching("https://users.roblox.com/v1/users/authenticated"@, str_view(cookie)),
{
    api_helper::get(String::from_str("https://users.roblox.com/v1/users/authenticated"), cookie)
}

/// Asks for the users with these ids.
pub fn users_from_ids(user_ids: Vec<i64>, exclude_banned_users: bool, cookie: Option<&str>) -> (out:
    Request)
    ensures
        out@ == creating(
            "https://users.roblox.com/v1/users"@,
            seq![
                ("userIds"@, FieldValueView::Ints(user_ids@)),
                ("excludeBannedUsers"@, FieldValueView::Bool(exclude_banned_users)),
            ],
            str_view(cookie),
        ),
{
    let body = Body::new().with("userIds", FieldValue::Ints(user_ids)).with(
        "excludeBannedUsers",
        FieldValue::Bool(exclude_banned_users),
    );
    assert(body@ =~= seq![
        ("userIds"@, FieldValueView::Ints(user_ids@)),
        ("excludeBannedUsers"@, FieldValueView::Bool(exclude_banned_users)),
    ]);
    api_helper::post(String::from_str("https://users.roblox.com/v1/users"), body, cookie)
}

/// Asks for the users with these names.
pub fn users_from_usernames(
    usernames: Vec<&str>,
    exclude_banned_users: bool,
    cookie: Option<&str>,
) -> (out: Request)
    ensures
        out@ == creating(
            "https://users.roblox.com/v1/usernames/users"@,
            seq![
                ("usernames"@, FieldValueView::Texts(strs_view(usernames@))),
                ("excludeBannedUsers"@, FieldValueView::Bool(exclude_banned_users)),
            ],
            str_view(cookie),
        ),
{
    let body = Body::new().with("usernames", FieldValue::Texts(owned_texts(&usernames))).with(
        "excludeBannedUsers",
        FieldValue::Bool(exclude_banned_users),
    );
    assert(body@ =~= seq![
        ("usernames"@, FieldValueView::Texts(strs_view(usernames@))),
        ("excludeBannedUsers"@, FieldValueView::Bool(exclude_banned_users)),
    ]);
    api_helper::post(String::from_str("https://users.roblox.com/v1/usernames/users"), body, cookie)
}

/// Asks where the users with these ids are and what they do.
pub fn user_presences_from_ids(user_ids: Vec<i64>, cookie: Option<&str>) -> (out: Request)
    ensures
        out@ == creating(
            "https://presence.roblox.com/v1/presence/users"@,
            seq![("userIds"@, FieldValueView::Ints(user_ids@))],
            str_view(cookie),
        ),
{
    let body = Body::new().with("userIds", FieldValue::Ints(user_ids));
    api_helper::post(
        String::from_str("https://presence.roblox.com/v1/presence/users"),
        body,
        cookie,
    )
}

/// Asks for the universes with these ids.
pub fn universes_from_ids(universe_ids: Vec<i64>, cookie: Option<&str>) -> (out: Request)
    ensures
        out@ == fetching(
            "https://games.roblox.com/v1/games?universeIds="@ + comma_separated(universe_ids@),
            str_view(cookie),
        ),
{
    api_helper::get(
        text_with_ids("https://games.roblox.com/v1/games?universeIds=", &universe_ids),
        cookie,
    )
}

/// Asks for the places with these ids.
pub fn places_from_ids(place_ids: Vec<i64>, cookie: Option<&str>) -> (out: Request)
    ensures
        out@ == fetching(
            "https://games.roblox.com/v1/games/multiget-place-details?placeIds="@
                + comma_separated(place_ids@),
            str_view(cookie),
        ),
{
    api_helper::get(
        text_with_ids(
            "https://games.roblox.com/v1/games/multiget-place-details?placeIds=",
            &place_ids,
        ),
        cookie,
    )
}

/// Asks for the plugins with these ids.
pub fn plugins_from_ids(plugin_ids: Vec<i64>, cookie: Option<&str>) -> (out: Request)
    ensures
        out@ == fetching(
            "https://develop.roblox.com/v1/plugins?pluginIds="@ + comma_separated(plugin_ids@),
            str_view(cookie),
        ),
{
    api_helper::get(
        text_with_ids("https://develop.roblox.com/v1/plugins?pluginIds=", &plugin_ids),
        cookie,
    )
}

/// Asks for the user with this id.
pub fn user_from_id(user_id: i64, cookie: Option<&str>) -> (out: Request)
    ensures
        out@ == fetching(
            "https://users.roblox.com/v1/users/"@ + decimal(user_id as int),
            str_view(cookie),
        ),
{
    api_helper::get(text_with_id("https://users.roblox.com/v1/users/", user_id), cookie)
}

/// Asks for the user with this name, banned or not; the reply lists that user
/// or nobody.
pub fn user_from_username(username: &str, cookie: Option<&str>) -> (out: Request)
    ensures
        out@ == creating(
            "https://users.roblox.com/v1/usernames/users"@,
            seq![
                ("usernames"@, FieldValueView::Texts(seq![username@])),
                ("excludeBannedUsers"@, FieldValueView::Bool(false)),
            ],
            str_view(cookie),
        ),
{
    let mut usernames: Vec<&str> = Vec::new();
    usernames.push(username);
    assert(strs_view(usernames@) =~= seq![username@]);
    users_from_usernames(usernames, false, cookie)
}

/// Asks for the group with this id.
pub fn group_from_id(group_id: i64, cookie: Option<&str>) -> (out: Request)
    ensures
        out@ == fetching(
            "https://groups.roblox.com/v1/groups/"@ + decimal(group_id as int),
            str_view(cookie),
        ),
{
    api_helper::get(text_with_id("https://groups.roblox.com/v1/groups/", group_id), cookie)
}

/// Asks where the user with this id is; the reply lists that one presence or
/// none.
pub fn user_presence_from_id(user_id: i64, cookie: Option<&str>) -> (out: Request)
    ensures
        out@ == creating(
            "https://presence.roblox.com/v1/presence/users"@,
            seq![("userIds"@, FieldValueView::Ints(seq![user_id]))],
            str_view(cookie),
        ),
{
    user_presences_from_ids(only(user_id), cookie)
}

/// Asks for the universe with this id; the reply lists that universe or none.
pub fn universe_from_id(universe_id: i64, cookie: Option<&str>) -> (out: Request)
    ensures
        out@ == fetching(
            "https://games.roblox.com/v1/games?universeIds="@ + decimal(universe_id as int),
            str_view(cookie),
        ),
{
    universes_from_ids(only(universe_id), cookie)
}

/// Asks for the place with this id; the reply lists that place or none.
pub fn place_from_id(place_id: i64, cookie: Option<&str>) -> (out: Request)
    ensures
        out@ == fetching(
            "https://games.roblox.com/v1/games/multiget-place-details?placeIds="@ + decimal(
                place_id as int,
            ),
            str_view(cookie),
        ),
{
    places_from_ids(only(place_id), cookie)
}

/// Asks for the details of the asset with this id.
pub fn asset_from_id(asset_id: i64, cookie: Option<&str>) -> (out: Request)
    ensures
        out@ == fetching(
            "https://economy.roblox.com/v2/assets/"@ + decimal(asset_id as int) + "/details"@,
            str_view(cookie),
        ),
{
    api_helper::get(
        text_around_id("https://economy.roblox.com/v2/assets/", asset_id, "/details"),
        cookie,
    )
}

/// Asks for the plugin with this id; the reply lists that plugin or none.
pub fn plugin_from_id(plugin_id: i64, cookie: Option<&str>) -> (out: Request)
    ensures
        out@ == fetching(
            "https://develop.roblox.com/v1/plugins?pluginIds="@ + decimal(plugin_id as int),
            str_view(cookie),
        ),
{
    plugins_from_ids(only(plugin_id), cookie)
}

/// Asks for the badge with this id.
pub fn badge_from_id(badge_id: i64, cookie: Option<&str>) -> (out: Request)
    ensures
        out@ == fetching(
            "https://badges.roblox.com/v1/badges/"@ + decimal(badge_id as int),
            str_view(cookie),
        ),
{
    api_helper::get(text_with_id("https://badges.roblox.com/v1/badges/", badge_id), cookie)
}

} // verus!
