use lotus_engine::cache::{BufferCache, KeyedCache, TextureCache, TextureLoad};

fn key(entity: &str, role: &str) -> (String, String) {
    (entity.to_string(), role.to_string())
}

#[test]
fn find_gives_back_what_was_inserted() {
    let mut cache: BufferCache<u32> = KeyedCache::new();
    assert_eq!(cache.find(&key("a", "vertex")), None);
    cache.insert(key("a", "vertex"), 1);
    cache.insert(key("a", "index"), 2);
    cache.insert(key("b", "vertex"), 3);
    assert_eq!(cache.find(&key("a", "vertex")), Some(&1));
    assert_eq!(cache.find(&key("a", "index")), Some(&2));
    assert_eq!(cache.find(&key("b", "vertex")), Some(&3));
    assert!(cache.contains_key(&key("b", "vertex")));
    assert!(!cache.contains_key(&key("b", "index")));
}

#[test]
fn insert_replaces_existing_value() {
    let mut cache: BufferCache<u32> = KeyedCache::new();
    cache.insert(key("a", "view"), 1);
    cache.insert(key("a", "view"), 7);
    assert_eq!(cache.find(&key("a", "view")), Some(&7));
}

#[test]
fn clean_drops_only_that_entity() {
    let mut cache: BufferCache<u32> = KeyedCache::new();
    cache.insert(key("a", "vertex"), 1);
    cache.insert(key("b", "vertex"), 2);
    cache.insert(key("a", "index"), 3);
    cache.insert(key("c", "a"), 4);
    cache.clean("a".to_string());
    assert_eq!(cache.find(&key("a", "vertex")), None);
    assert_eq!(cache.find(&key("a", "index")), None);
    assert_eq!(cache.find(&key("b", "vertex")), Some(&2));
    assert_eq!(cache.find(&key("c", "a")), Some(&4));
    cache.clean("a".to_string());
    assert_eq!(cache.find(&key("b", "vertex")), Some(&2));
}

#[test]
fn texture_load_plans() {
    let mut cache: TextureCache<u8> = TextureCache::new();
    let path = "textures/a.png".to_string();
    assert_eq!(cache.plan_load_texture(&path, false, false, false), TextureLoad::FromImage);
    assert_eq!(cache.plan_load_texture(&path, false, true, true), TextureLoad::FromText);
    assert_eq!(cache.plan_load_texture(&path, true, true, false), TextureLoad::FromImage);
    assert_eq!(cache.plan_load_texture(&"dummy_texture".to_string(), false, false, false), TextureLoad::Dummy);
    cache.store_texture(path.clone(), 9);
    assert_eq!(cache.get_texture(path.clone()), Some(&9));
    assert_eq!(cache.plan_load_texture(&path, false, false, false), TextureLoad::Cached);
    assert_eq!(cache.plan_load_texture(&path, true, true, true), TextureLoad::Recreate);
    assert_eq!(cache.get_texture("other".to_string()), None);
}
