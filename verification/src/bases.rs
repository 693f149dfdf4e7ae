//! Bare identifiers of resources: enough to ask the service about a resource
//! without having fetched it.

use crate::derives::asset::Asset;
use crate::derives::group::Group;
use crate::derives::plugin::Plugin;
use crate::derives::universe::Universe;
use crate::derives::user::User;
use vstd::prelude::*;

verus! {

/// An asset known by its id alone.
#[derive(Clone, Copy, Debug)]
pub struct BaseAsset {
    pub id: i64,
}

/// A group known by its id alone.
#[derive(Clone, Copy, Debug)]
pub struct BaseGroup {
    pub id: i64,
}

/// A plugin known by its id alone.
#[derive(Clone, Copy, Debug)]
pub struct BasePlugin {
    pub id: i64,
}

/// A universe known by its id alone.
#[derive(Clone, Copy, Debug)]
pub struct BaseUniverse {
    pub id: i64,
}

/// A user known by its id alone.
#[derive(Clone, Copy, Debug)]
pub struct BaseUser {
    pub id: i64,
}

impl Asset for BaseAsset {
    open spec fn asset_id(&self) -> i64 {
        self.id
    }

    fn id(&self) -> i64 {
        self.id
    }
}

impl Group for BaseGroup {
    open spec fn group_id(&self) -> i64 {
        self.id
    }

    fn id(&self) -> i64 {
        self.id
    }
}

impl Plugin for BasePlugin {
    open spec fn plugin_id(&self) -> i64 {
        self.id
    }

    fn id(&self) -> i64 {
        self.id
    }
}

impl Universe for BaseUniverse {
    open spec fn universe_id(&self) -> i64 {
        self.id
    }

    fn id(&self) -> i64 {
        self.id
    }
}

impl User for BaseUser {
    open spec fn user_id(&self) -> i64 {
        self.id
    }

    fn id(&self) -> i64 {
        self.id
    }
}

} // verus!
