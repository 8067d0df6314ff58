//! Keyed caches for render resources.
//!
//! The engine keeps GPU buffers and bind groups under a pair of strings, the
//! id of the entity that owns the resource and the resource's role, and
//! textures under their path. What is cached is opaque here: a cache only
//! stores, finds and drops values by key.
use vstd::prelude::*;
use crate::constants::cache::DUMMY_TEXTURE;

verus! {

/// A key that can be compared by its view. The trait is sealed: its only
/// implementations are the verified ones below.
pub trait CacheKey: View + Sized + crate::key_seal::Sealed {
    fn same_key(&self, other: &Self) -> (r: bool)
        ensures
            r == (self@ == other@),
    ;
}

impl CacheKey for String {
    fn same_key(&self, other: &Self) -> (r: bool) {
        self.eq(other)
    }
}

impl CacheKey for (String, String) {
    fn same_key(&self, other: &Self) -> (r: bool) {
        self.0.eq(&other.0) && self.1.eq(&other.1)
    }
}

/// A map from keys to values, kept as a list of entries with distinct keys.
pub struct KeyedCache<K: CacheKey, V> {
    entries: Vec<(K, V)>,
    map: Ghost<Map<K::V, V>>,
}

/// The resources of an entity are keyed by the entity's id and the resource's role.
pub type EntityKeyView = (Seq<char>, Seq<char>);

/// Cache of vertex, index and uniform buffers.
pub type BufferCache<B> = KeyedCache<(String, String), B>;

/// Cache of bind groups.
pub type BindGroupCache<G> = KeyedCache<(String, String), G>;

/// What remains of a cache keyed by entity once the entries of `entity_id` are dropped.
pub open spec fn without_entity<V>(m: Map<EntityKeyView, V>, entity_id: Seq<char>) -> Map<
    EntityKeyView,
    V,
> {
    Map::new(|k: EntityKeyView| m.contains_key(k) && k.0 != entity_id, |k: EntityKeyView| m[k])
}

impl<K: CacheKey, V> View for KeyedCache<K, V> {
    type V = Map<K::V, V>;

    open spec fn view(&self) -> Map<K::V, V> {
        self.contents()
    }
}

/// The entries agree with the map, and no key occurs twice.
spec fn entries_agree<K: CacheKey, V>(entries: Seq<(K, V)>, map: Map<K::V, V>) -> bool {
    &&& forall|i: int|
        0 <= i < entries.len() ==> #[trigger] map.contains_key(entries[i].0@) && map[entries[i].0@]
            == entries[i].1
    &&& forall|k: K::V|
        #[trigger] map.contains_key(k) ==> exists|i: int| 0 <= i < entries.len() && entries[i].0@ == k
    &&& forall|i: int, j: int|
        0 <= i < entries.len() && 0 <= j < entries.len() && i != j ==> entries[i].0@ != entries[j].0@
}

/// The position of the entry with the given key, if any.
fn position_in<K: CacheKey, V>(entries: &Vec<(K, V)>, map: Ghost<Map<K::V, V>>, key: &K) -> (r: Option<
    usize,
>)
    requires
        entries_agree(entries@, map@),
    ensures
        match r {
            Some(i) => i < entries@.len() && entries@[i as int].0@ == key@,
            None => !map@.contains_key(key@),
        },
{
    let mut i: usize = 0;
    while i < entries.len()
        invariant
            i <= entries@.len(),
            forall|j: int| 0 <= j < i ==> entries@[j].0@ != key@,
        decreases entries@.len() - i,
    {
        if entries[i].0.same_key(key) {
            return Some(i);
        }
        i = i + 1;
    }
    proof {
        if map@.contains_key(key@) {
            let j: int = choose|j: int| 0 <= j < entries@.len() && entries@[j].0@ == key@;
            assert(entries@[j].0@ != key@);
        }
    }
    None
}

/// Writes `value` under `key` into entries that agree with `map`, and returns
/// the map they agree with afterwards.
fn put_entry<K: CacheKey, V>(entries: &mut Vec<(K, V)>, map: Ghost<Map<K::V, V>>, key: K, value: V) -> (r:
    Ghost<Map<K::V, V>>)
    requires
        entries_agree(old(entries)@, map@),
    ensures
        r@ == map@.insert(key@, value),
        entries_agree(final(entries)@, r@),
{
    let ghost orig = entries@;
    let ghost m = map@;
    let ghost k = key@;
    let ghost nm = m.insert(k, value);
    match position_in(entries, map, &key) {
        Some(i) => {
            entries.set(i, (key, value));
            assert forall|j: int| 0 <= j < entries@.len() && j != i implies entries@[j].0@ != k by {
                assert(entries@[j] == orig[j]);
                assert(orig[j].0@ != orig[i as int].0@);
            }
            assert forall|q: K::V| #[trigger] nm.contains_key(q) implies exists|j: int|
                0 <= j < entries@.len() && entries@[j].0@ == q by {
                if q == k {
                    assert(entries@[i as int].0@ == q);
                } else {
                    let j: int = choose|j: int| 0 <= j < orig.len() && orig[j].0@ == q;
                    assert(entries@[j] == orig[j]);
                    assert(entries@[j].0@ == q);
                }
            }
            assert forall|a: int| 0 <= a < entries@.len() implies #[trigger] nm.contains_key(
                entries@[a].0@,
            ) && nm[entries@[a].0@] == entries@[a].1 by {
                if a != i {
                    assert(entries@[a] == orig[a]);
                    assert(m.contains_key(orig[a].0@));
                } else {
                    assert(entries@[a].1 == value);
                    assert(entries@[a].0@ == k);
                }
            }
            assert forall|a: int, b: int|
                0 <= a < entries@.len() && 0 <= b < entries@.len() && a != b implies entries@[a].0@
                != entries@[b].0@ by {
                if a != i && b != i {
                    assert(entries@[a] == orig[a]);
                    assert(entries@[b] == orig[b]);
                    assert(orig[a].0@ != orig[b].0@);
                } else if a == i {
                    assert(entries@[b] == orig[b]);
                    assert(orig[b].0@ != orig[a].0@);
                    assert(entries@[a].0@ == k);
                } else {
                    assert(entries@[a] == orig[a]);
                    assert(orig[b].0@ != orig[a].0@);
                    assert(entries@[b].0@ == k);
                }
            }
        },
        None => {
            entries.push((key, value));
            let ghost n: int = entries@.len() - 1;
            assert(entries@[n].0@ == k);
            assert forall|q: K::V| #[trigger] nm.contains_key(q) implies exists|i: int|
                0 <= i < entries@.len() && entries@[i].0@ == q by {
                if q == k {
                    assert(entries@[n].0@ == q);
                } else {
                    let i: int = choose|i: int| 0 <= i < n && orig[i].0@ == q;
                    assert(entries@[i] == orig[i]);
                    assert(entries@[i].0@ == q);
                }
            }
            assert forall|a: int| 0 <= a < entries@.len() implies #[trigger] nm.contains_key(
                entries@[a].0@,
            ) && nm[entries@[a].0@] == entries@[a].1 by {
                if a != n {
                    assert(entries@[a] == orig[a]);
                    assert(m.contains_key(orig[a].0@));
                }
            }
            assert forall|a: int, b: int|
                0 <= a < entries@.len() && 0 <= b < entries@.len() && a != b implies entries@[a].0@
                != entries@[b].0@ by {
                if a != n && b != n {
                    assert(entries@[a] == orig[a]);
                    assert(entries@[b] == orig[b]);
                    assert(orig[a].0@ != orig[b].0@);
                } else if a == n {
                    assert(entries@[b] == orig[b]);
                    assert(m.contains_key(orig[b].0@));
                    assert(entries@[a].0@ == k);
                } else {
                    assert(entries@[a] == orig[a]);
                    assert(m.contains_key(orig[a].0@));
                    assert(entries@[b].0@ == k);
                }
            }
        },
    }
    Ghost(nm)
}

impl<K: CacheKey, V> KeyedCache<K, V> {
    /// The cached values by the views of their keys.
    pub closed spec fn contents(&self) -> Map<K::V, V> {
        self.map@
    }

    #[verifier::type_invariant]
    spec fn inv(self) -> bool {
        entries_agree(self.entries@, self.map@)
    }

    /// Creates an empty cache.
    pub fn new() -> (r: Self)
        ensures
            r@ == Map::<K::V, V>::empty(),
    {
        KeyedCache { entries: Vec::new(), map: Ghost(Map::empty()) }
    }

    /// Whether a value is cached under the key.
    pub fn contains_key(&self, key: &K) -> (r: bool)
        ensures
            r == self@.contains_key(key@),
    {
        proof {
            use_type_invariant(self);
        }
        position_in(&self.entries, self.map, key).is_some()
    }

    /// The value cached under the key, if any.
    pub fn find(&self, key: &K) -> (r: Option<&V>)
        ensures
            r == (if self@.contains_key(key@) {
                Some(&self@[key@])
            } else {
                None
            }),
    {
        proof {
            use_type_invariant(self);
        }
        match position_in(&self.entries, self.map, key) {
            Some(i) => Some(&self.entries[i].1),
            None => None,
        }
    }

    /// Caches `value` under `key`, replacing what was cached there.
    pub fn insert(&mut self, key: K, value: V)
        ensures
            final(self)@ == old(self)@.insert(key@, value),
    {
        let mut taken: KeyedCache<K, V> = KeyedCache::new();
        std::mem::swap(&mut taken, self);
        proof {
            use_type_invariant(&taken);
        }
        let KeyedCache { mut entries, map } = taken;
        let new_map: Ghost<Map<K::V, V>> = put_entry(&mut entries, map, key, value);
        *self = KeyedCache { entries, map: new_map };
    }
}

impl<V> KeyedCache<(String, String), V> {
    /// Drops every value cached for the entity `entity_id`, whatever its role.
    pub fn clean(&mut self, entity_id: String)
        ensures
            final(self)@ == without_entity(old(self)@, entity_id@),
    {
        let mut taken: KeyedCache<(String, String), V> = KeyedCache::new();
        std::mem::swap(&mut taken, self);
        proof {
            use_type_invariant(&taken);
        }
        let KeyedCache { entries: mut rest, map } = taken;
        let ghost orig = rest@;
        let ghost m = map@;
        let ghost id = entity_id@;
        let mut kept: Vec<((String, String), V)> = Vec::new();
        let mut kept_map: Ghost<Map<EntityKeyView, V>> = Ghost(Map::empty());
        while rest.len() > 0
            invariant
                rest@ == orig.take(rest@.len() as int),
                rest@.len() <= orig.len(),
                entity_id@ == id,
                entries_agree(orig, m),
                entries_agree(kept@, kept_map@),
                forall|k: EntityKeyView|
                    #[trigger] kept_map@.contains_key(k) <==> exists|j: int|
                        rest@.len() <= j < orig.len() && orig[j].0@ == k && k.0 != id,
                forall|k: EntityKeyView| #[trigger] kept_map@.contains_key(k) ==> kept_map@[k] == m[k],
            decreases rest@.len(),
        {
            let ghost n: int = rest@.len() - 1;
            let ghost before = kept@;
            let ghost before_map = kept_map@;
            let entry: ((String, String), V) = rest.pop().unwrap();
            assert(entry == orig[n]);
            if !entry.0.0.eq(&entity_id) {
                let ghost k = entry.0@;
                assert(!before_map.contains_key(k)) by {
                    if before_map.contains_key(k) {
                        let j: int = choose|j: int| n + 1 <= j < orig.len() && orig[j].0@ == k && k.0 != id;
                        assert(orig[j].0@ != orig[n].0@);
                    }
                }
                let ghost v = entry.1;
                kept.push(entry);
                kept_map = Ghost(kept_map@.insert(k, v));
                let ghost len: int = kept@.len() - 1;
                assert(kept@[len].0@ == k);
                assert forall|a: int| 0 <= a < kept@.len() implies #[trigger] kept_map@.contains_key(
                    kept@[a].0@,
                ) && kept_map@[kept@[a].0@] == kept@[a].1 by {
                    if a != len {
                        assert(kept@[a] == before[a]);
                        assert(before_map.contains_key(before[a].0@));
                    }
                }
                assert forall|a: int, b: int|
                    0 <= a < kept@.len() && 0 <= b < kept@.len() && a != b implies kept@[a].0@
                    != kept@[b].0@ by {
                    if a != len && b != len {
                        assert(kept@[a] == before[a]);
                        assert(kept@[b] == before[b]);
                    } else if a == len {
                        assert(kept@[b] == before[b]);
                        assert(before_map.contains_key(before[b].0@));
                    } else {
                        assert(kept@[a] == before[a]);
                        assert(before_map.contains_key(before[a].0@));
                    }
                }
                assert forall|q: EntityKeyView| #[trigger] kept_map@.contains_key(q) implies exists|i: int|
                    0 <= i < kept@.len() && kept@[i].0@ == q by {
                    if q == k {
                        assert(kept@[len].0@ == q);
                    } else {
                        let i: int = choose|i: int| 0 <= i < before.len() && before[i].0@ == q;
                        assert(kept@[i] == before[i]);
                        assert(kept@[i].0@ == q);
                    }
                }
                assert forall|q: EntityKeyView| #[trigger] kept_map@.contains_key(q) <==> exists|j: int|
                    n <= j < orig.len() && orig[j].0@ == q && q.0 != id by {
                    if q == k {
                        assert(orig[n].0@ == q);
                    } else if kept_map@.contains_key(q) {
                        assert(before_map.contains_key(q));
                    } else if exists|j: int| n <= j < orig.len() && orig[j].0@ == q && q.0 != id {
                        let j: int = choose|j: int| n <= j < orig.len() && orig[j].0@ == q && q.0 != id;
                        assert(j != n);
                        assert(before_map.contains_key(q));
                    }
                }
                assert(m.contains_key(orig[n].0@));
                assert forall|q: EntityKeyView| #[trigger] kept_map@.contains_key(q) implies kept_map@[q]
                    == m[q] by {
                    if q != k {
                        assert(before_map.contains_key(q));
                    }
                }
            } else {
                assert forall|q: EntityKeyView| #[trigger] kept_map@.contains_key(q) <==> exists|j: int|
                    n <= j < orig.len() && orig[j].0@ == q && q.0 != id by {
                    if exists|j: int| n <= j < orig.len() && orig[j].0@ == q && q.0 != id {
                        let j: int = choose|j: int| n <= j < orig.len() && orig[j].0@ == q && q.0 != id;
                        assert(j != n);
                    }
                }
            }
            assert(rest@ == orig.take(rest@.len() as int));
        }
        assert(kept_map@ =~= without_entity(m, id)) by {
            assert forall|q: EntityKeyView| #[trigger] kept_map@.contains_key(q) <==> (m.contains_key(q)
                && q.0 != id) by {
                if m.contains_key(q) && q.0 != id {
                    let i: int = choose|i: int| 0 <= i < orig.len() && orig[i].0@ == q;
                    assert(kept_map@.contains_key(q));
                }
            }
        }
        *self = KeyedCache { entries: kept, map: kept_map };
    }
}


/// How a texture asked for by key is to be obtained.
#[derive(Clone, Copy, Debug, PartialEq, Eq, Structural)]
pub enum TextureLoad {
    /// Build it anew from the given text raster and replace the cached one.
    Recreate,
    /// Build it from the given text raster and cache it.
    FromText,
    /// Decode the image file named by the key and cache it.
    FromImage,
    /// Build the blank one-pixel texture and cache it.
    Dummy,
    /// Hand out the cached texture.
    Cached,
}

/// The textures loaded so far, by file path (or text id).
pub struct TextureCache<T> {
    textures: KeyedCache<String, T>,
}

/// How `load_texture` obtains the texture for `key`, given what the cache holds.
///
/// A text raster that is to be recreated always replaces the cached texture;
/// otherwise a cached texture is reused, and a missing one is built from the
/// text raster when one is given, as the blank texture for the dummy key, and
/// from the image file otherwise.
pub open spec fn texture_load(
    cached: Map<Seq<char>, bool>,
    key: Seq<char>,
    recreate: bool,
    text_size_given: bool,
    text_data_given: bool,
) -> TextureLoad {
    if recreate && text_size_given && text_data_given {
        TextureLoad::Recreate
    } else if !cached.contains_key(key) {
        if key != DUMMY_TEXTURE@ {
            if text_size_given && text_data_given {
                TextureLoad::FromText
            } else {
                TextureLoad::FromImage
            }
        } else {
            TextureLoad::Dummy
        }
    } else {
        TextureLoad::Cached
    }
}

/// The keys of a map, as a map to `true`.
pub open spec fn key_marks<K, V>(m: Map<K, V>) -> Map<K, bool> {
    Map::new(|k: K| m.contains_key(k), |k: K| true)
}

impl<T> View for TextureCache<T> {
    type V = Map<Seq<char>, T>;

    open spec fn view(&self) -> Map<Seq<char>, T> {
        self.contents()
    }
}

impl<T> TextureCache<T> {
    pub closed spec fn contents(&self) -> Map<Seq<char>, T> {
        self.textures@
    }

    /// Creates an empty texture cache.
    pub fn new() -> (r: Self)
        ensures
            r@ == Map::<Seq<char>, T>::empty(),
    {
        TextureCache { textures: KeyedCache::new() }
    }

    /// The texture cached under `key`, if any.
    pub fn get_texture(&self, key: String) -> (r: Option<&T>)
        ensures
            r == (if self@.contains_key(key@) {
                Some(&self@[key@])
            } else {
                None
            }),
    {
        self.textures.find(&key)
    }

    /// Decides how the texture for `key` is obtained: whether the cached one is
    /// handed out or a new one is built, and from what.
    pub fn plan_load_texture(
        &self,
        key: &String,
        recreate: bool,
        text_size_given: bool,
        text_data_given: bool,
    ) -> (r: TextureLoad)
        ensures
            r == texture_load(key_marks(self@), key@, recreate, text_size_given, text_data_given),
    {
        if recreate && text_size_given && text_data_given {
            return TextureLoad::Recreate;
        }
        if !self.textures.contains_key(key) {
            let dummy: String = DUMMY_TEXTURE.to_string();
            proof {
                broadcast use vstd::string::group_string_axioms;
            }
            if !key.eq(&dummy) {
                if text_size_given && text_data_given {
                    TextureLoad::FromText
                } else {
                    TextureLoad::FromImage
                }
            } else {
                TextureLoad::Dummy
            }
        } else {
            TextureLoad::Cached
        }
    }

    /// Caches `texture` under `key`, replacing what was cached there.
    pub fn store_texture(&mut self, key: String, texture: T)
        ensures
            final(self)@ == old(self)@.insert(key@, texture),
    {
        self.textures.insert(key, texture);
    }
}

/// A value inserted under a key is what is found under that key afterwards,
/// and what is found under every other key is as it was.
pub proof fn lemma_find_after_insert<K, V>(m: Map<K, V>, key: K, value: V, other: K)
    requires
        other != key,
    ensures
        m.insert(key, value).contains_key(key),
        m.insert(key, value)[key] == value,
        m.insert(key, value).contains_key(other) == m.contains_key(other),
        m.contains_key(other) ==> m.insert(key, value)[other] == m[other],
{
}

/// Cleaning drops every resource of the entity, whatever its role.
pub proof fn lemma_clean_drops_entity<V>(m: Map<EntityKeyView, V>, entity_id: Seq<char>, role: Seq<char>)
    ensures
        !without_entity(m, entity_id).contains_key((entity_id, role)),
{
}

/// Cleaning leaves the resources of every other entity as they were.
pub proof fn lemma_clean_keeps_others<V>(m: Map<EntityKeyView, V>, entity_id: Seq<char>, key: EntityKeyView)
    requires
        key.0 != entity_id,
    ensures
        without_entity(m, entity_id).contains_key(key) == m.contains_key(key),
        m.contains_key(key) ==> without_entity(m, entity_id)[key] == m[key],
{
}

/// Cleaning twice for the same entity changes nothing more.
pub proof fn lemma_clean_idempotent<V>(m: Map<EntityKeyView, V>, entity_id: Seq<char>)
    ensures
        without_entity(without_entity(m, entity_id), entity_id) == without_entity(m, entity_id),
{
    assert(without_entity(without_entity(m, entity_id), entity_id) =~= without_entity(m, entity_id));
}

/// Once a texture is stored under a key, loading that key without recreation
/// hands out the cached texture.
pub proof fn lemma_stored_texture_is_reused<T>(
    m: Map<Seq<char>, T>,
    key: Seq<char>,
    texture: T,
    text_size_given: bool,
    text_data_given: bool,
)
    ensures
        texture_load(key_marks(m.insert(key, texture)), key, false, text_size_given, text_data_given)
            == TextureLoad::Cached,
        m.insert(key, texture)[key] == texture,
{
}

} // verus!
