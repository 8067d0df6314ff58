//! Roles under which render resources are cached for an entity.
use vstd::prelude::*;

verus! {

/// Stands in for the entity id of resources that belong to no entity.
pub const FIXED_UUID: &'static str = "fixed_uuid";

pub const VERTEX: &'static str = "vertex";

pub const INDEX: &'static str = "index";

pub const PROJECTION: &'static str = "projection";

pub const VIEW: &'static str = "view";

pub const TRANSFORM_BUFFER: &'static str = "transform_buffer";

pub const RENDERING_TYPE_BUFFER: &'static str = "rendering_type_buffer";

pub const TEXTURE_BIND_GROUP: &'static str = "texture_bind_group";

pub const TRANSFORM_BIND_GROUP: &'static str = "transform_bind_group";

pub const RENDERING_TYPE_BIND_GROUP: &'static str = "rendering_type_bind_group";

/// The texture key under which the blank one-pixel texture is cached.
pub const DUMMY_TEXTURE: &'static str = "dummy_texture";

} // verus!
