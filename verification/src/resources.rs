//! Resources of the engine and the tables that hold them by name.

use crate::manifold::metric::GeometryType;
use vstd::prelude::*;

verus! {

/// Layout of the pixels of a texture.
#[derive(Debug, Clone, Copy, PartialEq, Eq, Structural)]
pub enum TextureFormat {
    Rgba8,
    Rgb8,
    R8,
    Rgba16F,
}

/// A mesh: vertices and the indices that join them into triangles.
#[derive(Clone)]
pub struct MeshResource<V> {
    pub vertices: Vec<V>,
    pub indices: Vec<u16>,
}

/// The source text of a shader and the geometry it draws.
#[derive(Clone)]
pub struct ShaderResource {
    pub vertex_source: String,
    pub fragment_source: String,
    pub geometry_type: GeometryType,
}

/// The pixels of a texture.
#[derive(Clone)]
pub struct TextureResource {
    pub width: u32,
    pub height: u32,
    pub data: Vec<u8>,
    pub format: TextureFormat,
}

/// What is known about a world besides its geometry.
#[derive(Clone)]
pub struct WorldMetadata {
    pub name: String,
    pub description: String,
    pub author: String,
    pub version: String,
}

impl Default for WorldMetadata {
    fn default() -> (metadata: WorldMetadata)
        ensures
            metadata.name@ == "Untitled World"@,
            metadata.description@ == Seq::<char>::empty(),
            metadata.author@ == "Unknown"@,
            metadata.version@ == "1.0.0"@,
    {
        WorldMetadata {
            name: "Untitled World".to_owned(),
            description: String::new(),
            author: "Unknown".to_owned(),
            version: "1.0.0".to_owned(),
        }
    }
}

/// Whether an entry of the list goes by the name `id`.
pub closed spec fn has_id<T>(entries: Seq<(String, T)>, id: Seq<char>) -> bool {
    exists|i: int| 0 <= i < entries.len() && (#[trigger] entries[i]).0@ == id
}

/// Where the entry by the name `id` stands in the list.
pub closed spec fn position_of<T>(entries: Seq<(String, T)>, id: Seq<char>) -> int {
    choose|i: int| 0 <= i < entries.len() && (#[trigger] entries[i]).0@ == id
}

/// No two entries of the list go by the same name.
pub closed spec fn distinct_ids<T>(entries: Seq<(String, T)>) -> bool {
    forall|i: int, j: int|
        0 <= i < j < entries.len() ==> (#[trigger] entries[i]).0@ != (#[trigger] entries[j]).0@
}

/// The list as a table from names to resources.
pub closed spec fn as_table<T>(entries: Seq<(String, T)>) -> Map<Seq<char>, T> {
    Map::new(|id: Seq<char>| has_id(entries, id), |id: Seq<char>| entries[position_of(entries, id)].1)
}

/// The entry found at position `i` is the one the table has under its name.
proof fn lemma_entry_in_table<T>(entries: Seq<(String, T)>, i: int)
    requires
        distinct_ids(entries),
        0 <= i < entries.len(),
    ensures
        as_table(entries).contains_key(entries[i].0@),
        as_table(entries)[entries[i].0@] == entries[i].1,
        position_of(entries, entries[i].0@) == i,
{
    let id = entries[i].0@;
    assert(has_id(entries, id));
    let p = position_of(entries, id);
    if p < i {
        assert(entries[p].0@ != entries[i].0@);
    } else if i < p {
        assert(entries[i].0@ != entries[p].0@);
    }
}

/// A name that stands at no position is not in the table.
proof fn lemma_absent_from_table<T>(entries: Seq<(String, T)>, id: Seq<char>)
    requires
        forall|i: int| 0 <= i < entries.len() ==> (#[trigger] entries[i]).0@ != id,
    ensures
        !as_table(entries).contains_key(id),
{
}

/// The resources of one kind, by name.
pub struct ResourceStorage<T> {
    entries: Vec<(String, T)>,
}

impl<T> View for ResourceStorage<T> {
    type V = Map<Seq<char>, T>;

    closed spec fn view(&self) -> Map<Seq<char>, T> {
        as_table(self.entries@)
    }
}

impl<T> ResourceStorage<T> {
    /// The invariant of a table: no two of its entries go by the same
    /// name.
    pub closed spec fn wf(&self) -> bool {
        distinct_ids(self.entries@)
    }

    /// Creates an empty table.
    pub fn new() -> (storage: Self)
        ensures
            storage@ == Map::<Seq<char>, T>::empty(),
            storage.wf(),
    {
        let storage = ResourceStorage { entries: Vec::new() };
        assert(storage@ =~= Map::<Seq<char>, T>::empty());
        storage
    }

    /// Finds the position of the entry by the name `id`.
    fn find(&self, id: &String) -> (found: Option<usize>)
        ensures
            match found {
                Some(i) => i < self.entries@.len() && self.entries@[i as int].0@ == id@,
                None => forall|i: int|
                    0 <= i < self.entries@.len() ==> (#[trigger] self.entries@[i]).0@ != id@,
            },
    {
        let mut i: usize = 0;
        while i < self.entries.len()
            invariant
                i <= self.entries@.len(),
                forall|j: int| 0 <= j < i ==> (#[trigger] self.entries@[j]).0@ != id@,
            decreases self.entries.len() - i,
        {
            if self.entries[i].0 == *id {
                return Some(i);
            }
            i += 1;
        }
        None
    }

    /// Puts a resource into the table under the name `id`, in place of the
    /// one that was there.
    pub fn insert(&mut self, id: String, resource: T)
        requires
            old(self).wf(),
        ensures
            final(self).wf(),
            final(self)@ == old(self)@.insert(id@, resource),
    {
        let ghost before = self.entries@;
        match self.find(&id) {
            Some(i) => {
                self.entries.set(i, (id, resource));
                proof {
                    let after = self.entries@;
                    assert(distinct_ids(after)) by {
                        assert forall|a: int, b: int| 0 <= a < b < after.len() implies (
                        #[trigger] after[a]).0@ != (#[trigger] after[b]).0@ by {
                            assert(before[a].0@ != before[b].0@);
                        }
                    }
                    assert forall|key: Seq<char>| #[trigger]
                        has_id(after, key) == (key == id@ || has_id(before, key)) by {
                        if has_id(after, key) {
                            let p = position_of(after, key);
                            if p != i {
                                assert(before[p].0@ == key);
                            }
                        }
                        if has_id(before, key) {
                            let p = position_of(before, key);
                            assert(after[p].0@ == key);
                        }
                        if key == id@ {
                            assert(after[i as int].0@ == key);
                        }
                    }
                    assert forall|key: Seq<char>| has_id(after, key) implies #[trigger] as_table(
                        after,
                    )[key] == as_table(before).insert(id@, resource)[key] by {
                        let p = position_of(after, key);
                        lemma_entry_in_table(after, p);
                        if p != i {
                            assert(before[p].0@ == key);
                            lemma_entry_in_table(before, p);
                        }
                    }
                    assert(as_table(after) =~= as_table(before).insert(id@, resource));
                }
            },
            None => {
                self.entries.push((id, resource));
                proof {
                    let after = self.entries@;
                    let n = before.len() as int;
                    assert(distinct_ids(after)) by {
                        assert forall|a: int, b: int| 0 <= a < b < after.len() implies (
                        #[trigger] after[a]).0@ != (#[trigger] after[b]).0@ by {
                            if b < n {
                                assert(before[a].0@ != before[b].0@);
                            } else {
                                assert(before[a].0@ != id@);
                            }
                        }
                    }
                    assert forall|key: Seq<char>| #[trigger]
                        has_id(after, key) == (key == id@ || has_id(before, key)) by {
                        if has_id(after, key) {
                            let p = position_of(after, key);
                            if p != n {
                                assert(before[p].0@ == key);
                            }
                        }
                        if has_id(before, key) {
                            let p = position_of(before, key);
                            assert(after[p].0@ == key);
                        }
                        if key == id@ {
                            assert(after[n].0@ == key);
                        }
                    }
                    assert forall|key: Seq<char>| has_id(after, key) implies #[trigger] as_table(
                        after,
                    )[key] == as_table(before).insert(id@, resource)[key] by {
                        let p = position_of(after, key);
                        lemma_entry_in_table(after, p);
                        if p != n {
                            assert(before[p].0@ == key);
                            lemma_entry_in_table(before, p);
                        }
                    }
                    assert(as_table(after) =~= as_table(before).insert(id@, resource));
                }
            },
        }
    }

    /// The resource by the name `id`; `None` where there is none.
    pub fn get(&self, id: &str) -> (resource: Option<&T>)
        requires
            self.wf(),
        ensures
            match resource {
                Some(r) => self@.contains_key(id@) && *r == self@[id@],
                None => !self@.contains_key(id@),
            },
    {
        let key = id.to_owned();
        match self.find(&key) {
            Some(i) => {
                proof {
                    lemma_entry_in_table(self.entries@, i as int);
                }
                Some(&self.entries[i].1)
            },
            None => {
                proof {
                    lemma_absent_from_table(self.entries@, id@);
                }
                None
            },
        }
    }

    /// Whether there is a resource by the name `id`.
    pub fn contains(&self, id: &str) -> (found: bool)
        requires
            self.wf(),
        ensures
            found == self@.contains_key(id@),
    {
        self.get(id).is_some()
    }

    /// Takes the resource by the name `id` out of the table and hands it
    /// out; `None` where there is none.
    pub fn remove(&mut self, id: &str) -> (resource: Option<T>)
        requires
            old(self).wf(),
        ensures
            final(self).wf(),
            final(self)@ == old(self)@.remove(id@),
            match resource {
                Some(r) => old(self)@.contains_key(id@) && r == old(self)@[id@],
                None => !old(self)@.contains_key(id@),
            },
    {
        let ghost before = self.entries@;
        let key = id.to_owned();
        match self.find(&key) {
            Some(i) => {
                proof {
                    lemma_entry_in_table(before, i as int);
                }
                let entry = self.entries.remove(i);
                proof {
                    let after = self.entries@;
                    assert forall|p: int| 0 <= p < after.len() implies #[trigger] after[p]
                        == before[if p < i { p } else { p + 1 }] by {}
                    assert(distinct_ids(after)) by {
                        assert forall|a: int, b: int| 0 <= a < b < after.len() implies (
                        #[trigger] after[a]).0@ != (#[trigger] after[b]).0@ by {
                            let a0 = if a < i { a } else { a + 1 };
                            let b0 = if b < i { b } else { b + 1 };
                            assert(before[a0].0@ != before[b0].0@);
                        }
                    }
                    assert forall|key: Seq<char>| #[trigger]
                        has_id(after, key) == (key != id@ && has_id(before, key)) by {
                        if has_id(after, key) {
                            let p = position_of(after, key);
                            let p0 = if p < i { p } else { p + 1 };
                            assert(before[p0].0@ == key);
                            if key == id@ {
                                if p0 < i {
                                    assert(before[p0].0@ != before[i as int].0@);
                                } else {
                                    assert(before[i as int].0@ != before[p0].0@);
                                }
                            }
                        }
                        if key != id@ && has_id(before, key) {
                            let p = position_of(before, key);
                            let q = if p < i { p } else { p - 1 };
                            assert(after[q].0@ == key);
                        }
                    }
                    assert forall|key: Seq<char>| has_id(after, key) implies #[trigger] as_table(
                        after,
                    )[key] == as_table(before)[key] by {
                        let p = position_of(after, key);
                        let p0 = if p < i { p } else { p + 1 };
                        lemma_entry_in_table(after, p);
                        assert(before[p0].0@ == key);
                        lemma_entry_in_table(before, p0);
                    }
                    assert(as_table(after) =~= as_table(before).remove(id@));
                }
                Some(entry.1)
            },
            None => {
                proof {
                    lemma_absent_from_table(before, id@);
                    assert(as_table(before) =~= as_table(before).remove(id@));
                }
                None
            },
        }
    }
}

/// Keeps the resources of one kind and knows where assets are found.
pub struct ResourceManager<T> {
    storage: ResourceStorage<T>,
    asset_path: String,
}

/// What a resource manager is, as a mathematical value.
pub struct ResourceManagerView<T> {
    pub resources: Map<Seq<char>, T>,
    pub asset_path: Seq<char>,
}

impl<T> View for ResourceManager<T> {
    type V = ResourceManagerView<T>;

    closed spec fn view(&self) -> ResourceManagerView<T> {
        ResourceManagerView { resources: self.storage@, asset_path: self.asset_path@ }
    }
}

impl<T> ResourceManager<T> {
    /// The invariant of a manager: that of its table.
    pub closed spec fn wf(&self) -> bool {
        self.storage.wf()
    }

    /// Creates a manager without resources that looks for assets under
    /// `assets`.
    pub fn new() -> (manager: Self)
        ensures
            manager@.resources == Map::<Seq<char>, T>::empty(),
            manager@.asset_path == "assets"@,
            manager.wf(),
    {
        ResourceManager { storage: ResourceStorage::new(), asset_path: "assets".to_owned() }
    }

    /// Sets the path under which assets are looked for.
    pub fn set_asset_path(&mut self, path: &str)
        ensures
            old(self).wf() ==> final(self).wf(),
            final(self)@.asset_path == path@,
            final(self)@.resources == old(self)@.resources,
    {
        self.asset_path = path.to_owned();
    }

    /// The path under which assets are looked for.
    pub fn asset_path(&self) -> (path: &str)
        ensures
            path@ == self@.asset_path,
    {
        self.asset_path.as_str()
    }

    /// Adds a resource under the name `id`, in place of the one that was
    /// there.
    pub fn add(&mut self, id: &str, resource: T)
        requires
            old(self).wf(),
        ensures
            final(self).wf(),
            final(self)@.resources == old(self)@.resources.insert(id@, resource),
            final(self)@.asset_path == old(self)@.asset_path,
    {
        self.storage.insert(id.to_owned(), resource);
    }

    /// The resource by the name `id`; `None` where there is none.
    pub fn get(&self, id: &str) -> (resource: Option<&T>)
        requires
            self.wf(),
        ensures
            match resource {
                Some(r) => self@.resources.contains_key(id@) && *r == self@.resources[id@],
                None => !self@.resources.contains_key(id@),
            },
    {
        self.storage.get(id)
    }

    /// Removes the resource by the name `id` and hands it out; `None` where
    /// there is none.
    pub fn remove(&mut self, id: &str) -> (resource: Option<T>)
        requires
            old(self).wf(),
        ensures
            final(self).wf(),
            final(self)@.resources == old(self)@.resources.remove(id@),
            final(self)@.asset_path == old(self)@.asset_path,
            match resource {
                Some(r) => old(self)@.resources.contains_key(id@) && r == old(self)@.resources[id@],
                None => !old(self)@.resources.contains_key(id@),
            },
    {
        self.storage.remove(id)
    }

    /// Whether there is a resource by the name `id`.
    pub fn contains(&self, id: &str) -> (found: bool)
        requires
            self.wf(),
        ensures
            found == self@.resources.contains_key(id@),
    {
        self.storage.contains(id)
    }
}

} // verus!
