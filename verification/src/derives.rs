//! What can be asked of the service about each kind of resource, given its id.

pub mod asset;
pub mod group;
pub mod plugin;
pub mod universe;
pub mod user;

pub use asset::Asset as AssetDerive;
pub use group::Group as GroupDerive;
pub use plugin::Plugin as PluginDerive;
pub use universe::Universe as UniverseDerive;
pub use user::User as UserDerive;
