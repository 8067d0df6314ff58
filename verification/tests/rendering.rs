use lotus_engine::entity::Entity;
use lotus_engine::rendering::{
    add_entity_to_render, extract_id_from_entity, glyph_quad_indices, remove_entity_to_render,
    resized_glyph_texture, RenderingType,
};
use lotus_engine::render::{RenderType, RenderingType as BatchRenderingType};

#[test]
fn shader_indices() {
    assert_eq!(RenderingType::SHAPE.to_shader_index(), 0);
    assert_eq!(RenderingType::BACKGROUND.to_shader_index(), 1);
    assert_eq!(RenderingType::TEXTURE.to_shader_index(), 2);
    assert_eq!(RenderingType::TEXT.to_shader_index(), 3);
    assert_eq!(RenderType::Shape.to_shader_index(), 0);
    assert_eq!(RenderType::Texture.to_shader_index(), 1);
    assert_eq!(RenderType::Text.to_shader_index(), 2);
    assert_eq!(BatchRenderingType::Shape.to_shader_index(), 0);
    assert_eq!(BatchRenderingType::Texture.to_shader_index(), 1);
    assert_eq!(BatchRenderingType::Text.to_shader_index(), 2);
    assert_eq!(RenderingType::default(), RenderingType::SHAPE);
    assert_eq!(RenderType::default(), RenderType::Shape);
}

#[test]
fn entity_ids() {
    let entity = Entity(0x67e5504410b1426f9247bb680e5fe0c8);
    assert_eq!(extract_id_from_entity(Some(&entity)), "67e55044-10b1-426f-9247-bb680e5fe0c8");
    assert_eq!(extract_id_from_entity(Some(&Entity(0))), "00000000-0000-0000-0000-000000000000");
    assert_eq!(extract_id_from_entity(None), "fixed_uuid");
}

#[test]
fn entities_to_render() {
    let mut list = Vec::new();
    add_entity_to_render(&mut list, Entity(1));
    add_entity_to_render(&mut list, Entity(2));
    add_entity_to_render(&mut list, Entity(1));
    remove_entity_to_render(&mut list, &Entity(1));
    assert_eq!(list, vec![Entity(2), Entity(1)]);
    remove_entity_to_render(&mut list, &Entity(3));
    assert_eq!(list, vec![Entity(2), Entity(1)]);
    add_entity_to_render(&mut list, Entity(5));
    remove_entity_to_render(&mut list, &Entity(5));
    assert_eq!(list, vec![Entity(2), Entity(1)]);
}

#[test]
fn glyph_indices() {
    assert_eq!(glyph_quad_indices(0), Vec::<u16>::new());
    assert_eq!(glyph_quad_indices(2), vec![0, 1, 2, 1, 3, 2, 4, 5, 6, 5, 7, 6]);
    let many = glyph_quad_indices(16385);
    assert_eq!(many.len(), 6 * 16385);
    assert_eq!(&many[6 * 16383..6 * 16383 + 6], &[65532, 65533, 65534, 65533, 65535, 65534]);
    assert_eq!(&many[6 * 16384..], &[0, 1, 2, 1, 3, 2]);
}

#[test]
fn glyph_texture_resizing() {
    assert_eq!(resized_glyph_texture((512, 256), (256, 256), 8192), (512, 256));
    assert_eq!(resized_glyph_texture((16384, 256), (4096, 256), 8192), (8192, 8192));
    assert_eq!(resized_glyph_texture((16384, 16384), (8192, 8192), 8192), (16384, 16384));
}
