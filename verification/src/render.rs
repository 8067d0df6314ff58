//! Rendering types of the batched renderer.
use vstd::prelude::*;

verus! {

/// Rendering processes, separated by type.
#[derive(Clone, Copy, Debug, PartialEq, Eq, Structural)]
pub enum RenderType {
    Shape,
    Texture,
    Text,
}

impl Default for RenderType {
    fn default() -> (r: Self)
        ensures
            r == RenderType::Shape,
    {
        RenderType::Shape
    }
}

impl RenderType {
    /// The index by which the shader tells the render types apart.
    pub open spec fn shader_index_of(self) -> u32 {
        match self {
            RenderType::Shape => 0,
            RenderType::Texture => 1,
            RenderType::Text => 2,
        }
    }

    /// Returns the index by which the shader tells this render type apart.
    pub fn to_shader_index(&self) -> (r: u32)
        ensures
            r == self.shader_index_of(),
    {
        match self {
            RenderType::Shape => 0,
            RenderType::Texture => 1,
            RenderType::Text => 2,
        }
    }
}

/// Rendering processes, separated by type.
#[derive(Clone, Copy, Debug, PartialEq, Eq, Structural)]
pub enum RenderingType {
    Shape,
    Texture,
    Text,
}

impl Default for RenderingType {
    fn default() -> (r: Self)
        ensures
            r == RenderingType::Shape,
    {
        RenderingType::Shape
    }
}

impl RenderingType {
    /// The index by which the shader tells the rendering types apart.
    pub open spec fn shader_index_of(self) -> u32 {
        match self {
            RenderingType::Shape => 0,
            RenderingType::Texture => 1,
            RenderingType::Text => 2,
        }
    }

    /// Returns the index by which the shader tells this rendering type apart.
    pub fn to_shader_index(&self) -> (r: u32)
        ensures
            r == self.shader_index_of(),
    {
        match self {
            RenderingType::Shape => 0,
            RenderingType::Texture => 1,
            RenderingType::Text => 2,
        }
    }
}

/// A batch of instances drawn together with one render type and texture.
pub struct RenderBatch {
    pub render_type: RenderType,
    pub texture_path: Option<String>,
    pub instances: Vec<String>,
}

/// Distinct render types reach the shader as distinct indices.
pub proof fn lemma_render_shader_indices_distinct(a: RenderType, b: RenderType)
    ensures
        a != b ==> a.shader_index_of() != b.shader_index_of(),
        a.shader_index_of() < 3,
{
}

/// Distinct rendering types reach the shader as distinct indices.
pub proof fn lemma_rendering_shader_indices_distinct(a: RenderingType, b: RenderingType)
    ensures
        a != b ==> a.shader_index_of() != b.shader_index_of(),
        a.shader_index_of() < 3,
{
}

} // verus!
