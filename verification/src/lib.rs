//! A sans-I/O core for a typed client of the Roblox web API.
//!
//! The crate decides; it does not send. It builds the requests that look
//! resources up, keeps the shared credential headers, classifies replies,
//! runs the one-shot token refresh, and walks paged lists. Whoever uses it
//! does the network work between two of its steps.

pub mod bases;
pub mod client;
pub mod derives;
pub mod models;
pub mod util;

pub use client::asset_from_id;
pub use client::authenticated_user;
pub use client::badge_from_id;
pub use client::base_asset;
pub use client::base_group;
pub use client::base_plugin;
pub use client::base_universe;
pub use client::base_user;
pub use client::group_from_id;
pub use client::ids_to_string;
pub use client::place_from_id;
pub use client::places_from_ids;
pub use client::plugin_from_id;
pub use client::plugins_from_ids;
pub use client::search_users;
pub use client::set_roblosecurity;
pub use client::universe_from_id;
pub use client::universes_from_ids;
pub use client::user_from_id;
pub use client::user_from_username;
pub use client::user_presence_from_id;
pub use client::user_presences_from_ids;
pub use client::users_from_ids;
pub use client::users_from_usernames;
