use lotus_engine::cache::{BufferCache, KeyedCache};
use lotus_engine::entity::Entity;
use lotus_engine::rendering::{
    glyph_brush_step, resource_key, texture_bind_group_key, vertex_and_index_cached, BrushOutcome, GlyphStep,
};
use lotus_engine::text::{contains_up_twice, font_source, FontSource, Fonts};
use lotus_engine::text::font::{font_source as asset_font_source, FontSource as AssetFontSource, Fonts as AssetFonts};

#[test]
fn resource_keys() {
    let e = Entity(0x67e5504410b1426f9247bb680e5fe0c8);
    assert_eq!(
        resource_key(Some(&e), "vertex"),
        ("67e55044-10b1-426f-9247-bb680e5fe0c8".to_string(), "vertex".to_string())
    );
    assert_eq!(resource_key(None, "view"), ("fixed_uuid".to_string(), "view".to_string()));
    assert_eq!(texture_bind_group_key(None, None), ("fixed_uuid".to_string(), "texture_bind_group".to_string()));
    let path = "sheet.png".to_string();
    assert_eq!(texture_bind_group_key(None, Some(&path)), ("fixed_uuid".to_string(), "sheet.png".to_string()));
}

#[test]
fn vertex_and_index_both_needed() {
    let mut cache: BufferCache<u8> = KeyedCache::new();
    assert!(!vertex_and_index_cached(&cache, None));
    cache.insert(resource_key(None, "vertex"), 1);
    assert!(!vertex_and_index_cached(&cache, None));
    cache.insert(resource_key(None, "index"), 2);
    assert!(vertex_and_index_cached(&cache, None));
    assert!(!vertex_and_index_cached(&cache, Some(&Entity(1))));
}

#[test]
fn glyph_steps() {
    match glyph_brush_step(BrushOutcome::Draw(1), (256, 256), 8192) {
        GlyphStep::Draw(indices) => assert_eq!(indices, vec![0, 1, 2, 1, 3, 2]),
        _ => panic!("expected a draw"),
    }
    assert!(matches!(glyph_brush_step(BrushOutcome::ReDraw, (256, 256), 8192), GlyphStep::Keep));
    assert!(matches!(
        glyph_brush_step(BrushOutcome::TextureTooSmall(512, 512), (256, 256), 8192),
        GlyphStep::Retry(512, 512)
    ));
    assert!(matches!(
        glyph_brush_step(BrushOutcome::TextureTooSmall(9000, 10), (256, 256), 8192),
        GlyphStep::Retry(8192, 8192)
    ));
}

#[test]
fn font_sources() {
    assert!(contains_up_twice(&"../../x".to_string()));
    assert!(contains_up_twice(&"a/../../x".to_string()));
    assert!(!contains_up_twice(&"../x/../y".to_string()));
    assert!(!contains_up_twice(&"".to_string()));
    assert_eq!(font_source(Fonts::CodystarLight.get_path()), FontSource::Embedded(Fonts::CodystarLight));
    assert_eq!(font_source("fonts/mine.ttf".to_string()), FontSource::AssetFile);
    assert_eq!(asset_font_source(AssetFonts::RobotoMono.get_path()), AssetFontSource::AssetFile);
}
