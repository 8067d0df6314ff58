//! Decisions of the renderer that do not touch the GPU: shader indices of
//! rendering types, the cache id of an entity, the list of entities to draw,
//! the index buffer of laid-out glyphs and the growth of the glyph texture.
use vstd::prelude::*;
use crate::cache::BufferCache;
use crate::constants::cache::{FIXED_UUID, INDEX, TEXTURE_BIND_GROUP, VERTEX};
use crate::entity::{Entity, uuid_string, uuid_text};

verus! {

/// Rendering processes, separated by what is drawn.
#[allow(non_camel_case_types)]
#[derive(Clone, Copy, Debug, PartialEq, Eq, Structural)]
pub enum RenderingType {
    SHAPE,
    BACKGROUND,
    TEXTURE,
    TEXT,
}

impl Default for RenderingType {
    fn default() -> (r: Self)
        ensures
            r == RenderingType::SHAPE,
    {
        RenderingType::SHAPE
    }
}

impl RenderingType {
    /// The index by which the shader tells the rendering types apart.
    pub open spec fn shader_index_of(self) -> u32 {
        match self {
            RenderingType::SHAPE => 0,
            RenderingType::BACKGROUND => 1,
            RenderingType::TEXTURE => 2,
            RenderingType::TEXT => 3,
        }
    }

    /// Returns the index by which the shader tells this rendering type apart.
    pub fn to_shader_index(&self) -> (r: u32)
        ensures
            r == self.shader_index_of(),
    {
        match self {
            RenderingType::SHAPE => 0,
            RenderingType::BACKGROUND => 1,
            RenderingType::TEXTURE => 2,
            RenderingType::TEXT => 3,
        }
    }
}

/// Distinct rendering types reach the shader as distinct indices.
pub proof fn lemma_rendering_shader_indices_distinct(a: RenderingType, b: RenderingType)
    ensures
        a != b ==> a.shader_index_of() != b.shader_index_of(),
        a.shader_index_of() < 4,
{
}

/// The id under which the render resources of `entity` are cached: the
/// entity's UUID, or `FIXED_UUID` for resources of no entity.
pub open spec fn entity_id_text(entity: Option<&Entity>) -> Seq<char> {
    match entity {
        Some(e) => uuid_text(e.0),
        None => FIXED_UUID@,
    }
}

/// Returns the id under which the render resources of `entity` are cached.
pub fn extract_id_from_entity(entity: Option<&Entity>) -> (r: String)
    ensures
        r@ == entity_id_text(entity),
{
    match entity {
        Some(e) => uuid_string(e.0),
        None => {
            let r: String = FIXED_UUID.to_string();
            proof {
                broadcast use vstd::string::group_string_axioms;
            }
            r
        },
    }
}

/// Distinct entities get distinct cache ids, and none of them is the id of
/// resources that belong to no entity.
pub proof fn lemma_entity_ids_distinct(a: Entity, b: Entity)
    ensures
        entity_id_text(Some(&a)) == entity_id_text(Some(&b)) <==> a == b,
        entity_id_text(Some(&a)) != entity_id_text(None),
{
    if entity_id_text(Some(&a)) == entity_id_text(Some(&b)) {
        crate::entity::lemma_uuid_text_injective(a.0, b.0);
    }
    reveal_strlit("fixed_uuid");
    assert(uuid_text(a.0).len() == 36);
}

/// `i` is the first position of `entity` in `s`.
pub open spec fn is_first_position(s: Seq<Entity>, entity: Entity, i: int) -> bool {
    &&& 0 <= i < s.len()
    &&& s[i] == entity
    &&& forall|j: int| 0 <= j < i ==> s[j] != entity
}

/// `s` with the first occurrence of `entity` taken out, or `s` itself when
/// `entity` does not occur.
pub open spec fn without_first(s: Seq<Entity>, entity: Entity) -> Seq<Entity> {
    if s.contains(entity) {
        s.remove(choose|i: int| is_first_position(s, entity, i))
    } else {
        s
    }
}

proof fn lemma_first_position_unique(s: Seq<Entity>, entity: Entity, i: int, j: int)
    requires
        is_first_position(s, entity, i),
        is_first_position(s, entity, j),
    ensures
        i == j,
{
    if i < j {
        assert(s[i] != entity);
    } else if j < i {
        assert(s[j] != entity);
    }
}

/// Adds an entity at the end of the list of entities to draw.
pub fn add_entity_to_render(entities: &mut Vec<Entity>, entity: Entity)
    ensures
        final(entities)@ == old(entities)@.push(entity),
{
    entities.push(entity);
}

/// Takes the first occurrence of `entity` out of the list of entities to
/// draw; the list stays as it is when `entity` is not in it.
pub fn remove_entity_to_render(entities: &mut Vec<Entity>, entity: &Entity)
    ensures
        final(entities)@ == without_first(old(entities)@, *entity),
{
    let mut i: usize = 0;
    while i < entities.len()
        invariant
            i <= entities@.len(),
            entities@ == old(entities)@,
            forall|j: int| 0 <= j < i ==> entities@[j] != *entity,
        decreases entities@.len() - i,
    {
        if entities[i] == *entity {
            let ghost s = entities@;
            proof {
                assert(is_first_position(s, *entity, i as int));
                assert(s.contains(*entity));
                let c: int = choose|k: int| is_first_position(s, *entity, k);
                lemma_first_position_unique(s, *entity, i as int, c);
            }
            entities.remove(i);
            return;
        }
        i = i + 1;
    }
    assert(!entities@.contains(*entity));
}

/// Removing an entity that was just added, and was not there before, gives
/// the list back as it was.
pub proof fn lemma_add_then_remove(s: Seq<Entity>, entity: Entity)
    requires
        !s.contains(entity),
    ensures
        without_first(s.push(entity), entity) == s,
{
    let t = s.push(entity);
    let n: int = s.len() as int;
    assert(t[n] == entity);
    assert(is_first_position(t, entity, n)) by {
        assert forall|j: int| 0 <= j < n implies t[j] != entity by {
            assert(t[j] == s[j]);
        }
    }
    let c: int = choose|k: int| is_first_position(t, entity, k);
    lemma_first_position_unique(t, entity, n, c);
    assert(t.remove(n) =~= s);
}

/// The `j`-th of the six indices of the `g`-th glyph quad: two triangles over
/// the quad's four vertices, whose first index wraps at 16 bits.
pub open spec fn glyph_quad_index(g: int, j: int) -> int {
    let base: int = (4 * g) % 65536;
    if j == 0 {
        base
    } else if j == 1 {
        base + 1
    } else if j == 2 {
        base + 2
    } else if j == 3 {
        base + 1
    } else if j == 4 {
        base + 3
    } else {
        base + 2
    }
}

/// Builds the index buffer for `glyph_count` glyph quads laid out one after
/// another, four vertices each: six indices (two triangles) per glyph.
pub fn glyph_quad_indices(glyph_count: usize) -> (r: Vec<u16>)
    requires
        glyph_count <= usize::MAX / 6,
    ensures
        r@.len() == 6 * glyph_count,
        forall|p: int| 0 <= p < r@.len() ==> r@[p] == glyph_quad_index(p / 6, p % 6),
{
    let mut indices: Vec<u16> = Vec::new();
    let mut i: usize = 0;
    while i < glyph_count
        invariant
            i <= glyph_count,
            glyph_count <= usize::MAX / 6,
            indices@.len() == 6 * i,
            forall|p: int| 0 <= p < indices@.len() ==> indices@[p] == glyph_quad_index(p / 6, p % 6),
        decreases glyph_count - i,
    {
        let base_index: u16 = (i % 16384 * 4) as u16;
        assert(base_index == (4 * i) % 65536) by (nonlinear_arith)
            requires
                base_index == (i % 16384) * 4,
        ;
        let ghost before = indices@;
        indices.push(base_index);
        indices.push(base_index + 1);
        indices.push(base_index + 2);
        indices.push(base_index + 1);
        indices.push(base_index + 3);
        indices.push(base_index + 2);
        assert forall|p: int| 0 <= p < indices@.len() implies indices@[p] == glyph_quad_index(p / 6, p % 6) by {
            if p < 6 * i {
                assert(indices@[p] == before[p]);
            } else {
                assert(p / 6 == i as int) by (nonlinear_arith)
                    requires
                        6 * i <= p < 6 * i + 6,
                ;
                assert(p % 6 == p - 6 * i) by (nonlinear_arith)
                    requires
                        6 * i <= p < 6 * i + 6,
                ;
            }
        }
        i = i + 1;
    }
    indices
}

/// Every index of a glyph quad names one of that glyph's four vertices, as
/// long as the vertex count fits 16 bits.
pub proof fn lemma_glyph_indices_stay_in_quad(g: int, j: int)
    requires
        0 <= g < 16384,
        0 <= j < 6,
    ensures
        4 * g <= glyph_quad_index(g, j) < 4 * g + 4,
{
}

/// The dimensions to which the glyph texture is resized when the rasterizer
/// reports it too small and suggests `suggested`.
pub open spec fn glyph_texture_size(suggested: (u32, u32), current: (u32, u32), limit: u32) -> (u32, u32) {
    if suggested.0 > limit || suggested.1 > limit {
        if current.0 < limit || current.1 < limit {
            (limit, limit)
        } else {
            suggested
        }
    } else {
        suggested
    }
}

/// Decides the new size of the glyph texture: the suggested size when the
/// device allows it, otherwise the device's largest square texture, unless
/// the texture has already reached that size in both dimensions.
pub fn resized_glyph_texture(suggested: (u32, u32), current: (u32, u32), limit: u32) -> (r: (u32, u32))
    ensures
        r == glyph_texture_size(suggested, current, limit),
{
    if suggested.0 > limit || suggested.1 > limit {
        if current.0 < limit || current.1 < limit {
            (limit, limit)
        } else {
            suggested
        }
    } else {
        suggested
    }
}

/// A suggested size within the device's limit is taken as it is; one beyond
/// it gives the device's largest square texture while the current texture is
/// below the limit in some dimension. So the new size never exceeds the limit
/// unless the texture already reaches it in both dimensions.
pub proof fn lemma_glyph_texture_size_within_limit(suggested: (u32, u32), current: (u32, u32), limit: u32)
    ensures
        suggested.0 <= limit && suggested.1 <= limit ==> glyph_texture_size(suggested, current, limit)
            == suggested,
        (suggested.0 > limit || suggested.1 > limit) && (current.0 < limit || current.1 < limit)
            ==> glyph_texture_size(suggested, current, limit) == (limit, limit),
        (glyph_texture_size(suggested, current, limit).0 <= limit && glyph_texture_size(
            suggested,
            current,
            limit,
        ).1 <= limit) || (current.0 >= limit && current.1 >= limit),
{
}

/// The key under which the resource of the given role is cached for `entity`.
pub fn resource_key(entity: Option<&Entity>, role: &str) -> (r: (String, String))
    ensures
        r@ == (entity_id_text(entity), role@),
{
    let id: String = extract_id_from_entity(entity);
    let role_text: String = role.to_string();
    proof {
        broadcast use vstd::string::group_string_axioms;
    }
    (id, role_text)
}

/// The key of an entity's texture bind group: a sprite sheet's bind group is
/// kept under the sheet's path, any other under `TEXTURE_BIND_GROUP`.
pub fn texture_bind_group_key(entity: Option<&Entity>, sprite_sheet_path: Option<&String>) -> (r: (
    String,
    String,
))
    ensures
        r@ == (
            entity_id_text(entity),
            match sprite_sheet_path {
                Some(path) => path@,
                None => TEXTURE_BIND_GROUP@,
            },
        ),
{
    match sprite_sheet_path {
        Some(path) => (extract_id_from_entity(entity), path.clone()),
        None => resource_key(entity, TEXTURE_BIND_GROUP),
    }
}

/// Whether both the vertex and the index buffer of `entity` are cached; only
/// then are they reused, otherwise both are created anew.
pub fn vertex_and_index_cached<B>(cache: &BufferCache<B>, entity: Option<&Entity>) -> (r: bool)
    ensures
        r == (cache@.contains_key((entity_id_text(entity), VERTEX@)) && cache@.contains_key(
            (entity_id_text(entity), INDEX@),
        )),
{
    let vertex_key: (String, String) = resource_key(entity, VERTEX);
    let index_key: (String, String) = resource_key(entity, INDEX);
    cache.contains_key(&vertex_key) && cache.contains_key(&index_key)
}

/// The indices of `glyph_count` glyph quads, six per glyph.
pub open spec fn glyph_index_seq(glyph_count: int) -> Seq<u16> {
    Seq::new((6 * glyph_count) as nat, |p: int| glyph_quad_index(p / 6, p % 6) as u16)
}

/// What the glyph rasterizer reported after processing the queued text.
#[derive(Clone, Copy, Debug, PartialEq, Eq, Structural)]
pub enum BrushOutcome {
    /// The text was laid out anew into this many glyph quads.
    Draw(usize),
    /// The text is unchanged since the last layout.
    ReDraw,
    /// The glyph texture is too small; the rasterizer suggests this size.
    TextureTooSmall(u32, u32),
}

/// What the text setup does next.
pub enum GlyphStep {
    /// Resize the glyph texture to this size and process the text again.
    Retry(u32, u32),
    /// Append these indices to the text's index buffer, and stop.
    Draw(Vec<u16>),
    /// Keep the buffers as they are, and stop.
    Keep,
}

/// One round of the text setup's loop: a too small glyph texture is resized
/// and the text processed again; a new layout gives the index buffer of its
/// glyph quads; an unchanged text keeps what it has.
pub fn glyph_brush_step(outcome: BrushOutcome, current: (u32, u32), limit: u32) -> (r: GlyphStep)
    requires
        outcome matches BrushOutcome::Draw(n) ==> n <= usize::MAX / 6,
    ensures
        match outcome {
            BrushOutcome::Draw(n) => r matches GlyphStep::Draw(indices) && indices@ == glyph_index_seq(n as int),
            BrushOutcome::ReDraw => r is Keep,
            BrushOutcome::TextureTooSmall(w, h) => r matches GlyphStep::Retry(nw, nh) && (nw, nh)
                == glyph_texture_size((w, h), current, limit),
        },
{
    match outcome {
        BrushOutcome::Draw(n) => {
            let indices: Vec<u16> = glyph_quad_indices(n);
            assert(indices@ =~= glyph_index_seq(n as int));
            GlyphStep::Draw(indices)
        },
        BrushOutcome::ReDraw => GlyphStep::Keep,
        BrushOutcome::TextureTooSmall(w, h) => {
            let size: (u32, u32) = resized_glyph_texture((w, h), current, limit);
            GlyphStep::Retry(size.0, size.1)
        },
    }
}

} // verus!
