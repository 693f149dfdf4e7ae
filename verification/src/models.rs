//! Shapes of what the service describes.

pub mod skinny_group;
pub mod skinny_role;
