//! Entities, their components, and the system that moves entities through
//! portals.
//!
//! Components are kept in one typed table per kind. The world holds the
//! four tables of the engine: transforms and velocities, whose types the
//! caller brings, and the two kinds defined here.

use crate::manifold::chart::ChartId;
use crate::manifold::portal::PortalId;
use crate::manifold::{Manifold, ManifoldPosition, ManifoldView};
use crate::sequences::{
    lemma_filter_keeps, lemma_filter_member, lemma_filter_no_duplicates, lemma_filter_none,
    lemma_filter_step,
};
use std::collections::HashMap;
use std::sync::Arc;
use vstd::prelude::*;

verus! {

broadcast use vstd::std_specs::hash::group_hash_axioms;

/// Identifier of an entity.
#[derive(Debug, Clone, Copy, PartialEq, Eq, Hash, Structural)]
pub struct Entity(pub u32);

/// Marks the types that can be attached to an entity.
pub trait Component {

}

/// Says how an entity is drawn.
#[derive(Debug, Clone)]
pub struct Renderable {
    pub mesh_id: String,
    pub shader_id: String,
    pub visible: bool,
}

impl Component for Renderable {

}

/// Marks an entity that stands for a portal.
#[derive(Debug, Clone, Copy, PartialEq, Eq, Structural)]
pub struct PortalEntity {
    pub portal_id: PortalId,
    pub active: bool,
}

impl Component for PortalEntity {

}

/// The components of one kind, by entity.
pub struct ComponentStorage<T: Component> {
    components: HashMap<u32, T>,
}

impl<T: Component> View for ComponentStorage<T> {
    type V = Map<Entity, T>;

    closed spec fn view(&self) -> Map<Entity, T> {
        Map::new(
            |entity: Entity| self.components@.contains_key(entity.0),
            |entity: Entity| self.components@[entity.0],
        )
    }
}

impl<T: Component> ComponentStorage<T> {
    /// Creates an empty table.
    pub fn new() -> (storage: Self)
        ensures
            storage@ == Map::<Entity, T>::empty(),
    {
        let storage = ComponentStorage { components: HashMap::new() };
        assert(storage@ =~= Map::<Entity, T>::empty());
        storage
    }

    /// Attaches a component to an entity, in place of the one it had.
    pub fn add_component(&mut self, entity: Entity, component: T)
        ensures
            final(self)@ == old(self)@.insert(entity, component),
    {
        self.components.insert(entity.0, component);
        assert(self@ =~= old(self)@.insert(entity, component));
    }

    /// The component of an entity; `None` where it has none.
    pub fn get_component(&self, entity: Entity) -> (component: Option<&T>)
        ensures
            match component {
                Some(c) => self@.contains_key(entity) && *c == self@[entity],
                None => !self@.contains_key(entity),
            },
    {
        self.components.get(&entity.0)
    }

    /// Whether the entity has a component of this kind.
    pub fn has_component(&self, entity: Entity) -> (has: bool)
        ensures
            has == self@.contains_key(entity),
    {
        self.components.contains_key(&entity.0)
    }

    /// Detaches the component of an entity and hands it out; `None` where
    /// it has none.
    pub fn remove_component(&mut self, entity: Entity) -> (component: Option<T>)
        ensures
            final(self)@ == old(self)@.remove(entity),
            match component {
                Some(c) => old(self)@.contains_key(entity) && c == old(self)@[entity],
                None => !old(self)@.contains_key(entity),
            },
    {
        let component = self.components.remove(&entity.0);
        assert(self@ =~= old(self)@.remove(entity));
        component
    }

    /// Number of entities that have a component of this kind.
    pub fn len(&self) -> (len: usize)
        ensures
            len == self@.len(),
            self@.dom().finite(),
    {
        proof {
            lemma_storage_len(self.components@, self@);
        }
        self.components.len()
    }
}

/// A table has as many entries by entity as by number.
proof fn lemma_storage_len<T>(by_number: Map<u32, T>, by_entity: Map<Entity, T>)
    requires
        by_number.dom().finite(),
        forall|entity: Entity| by_entity.contains_key(entity) <==> by_number.contains_key(entity.0),
    ensures
        by_entity.dom().finite(),
        by_entity.len() == by_number.len(),
    decreases by_number.len(),
{
    if by_number.len() == 0 {
        assert(by_number.dom() =~= Set::empty());
        assert(by_entity.dom() =~= Set::empty());
    } else {
        let k = by_number.dom().choose();
        assert(by_number.dom().contains(k));
        assert(by_entity.contains_key(Entity(k)));
        lemma_storage_len(by_number.remove(k), by_entity.remove(Entity(k)));
        assert(by_entity.dom() =~= by_entity.remove(Entity(k)).dom().insert(Entity(k)));
    }
}

/// The entities other than `entity`.
pub open spec fn other_than(entity: Entity) -> spec_fn(Entity) -> bool {
    |e: Entity| e != entity
}

/// What an entity registry is, as a mathematical value: the living
/// entities in the order of their creation and the number of the next one.
pub struct RegistryView {
    pub entities: Seq<Entity>,
    pub next_entity_id: u32,
}

impl RegistryView {
    /// The invariant of a registry: every entity was numbered below the
    /// next number, and none is listed twice.
    pub open spec fn wf(self) -> bool {
        &&& forall|i: int|
            0 <= i < self.entities.len() ==> (#[trigger] self.entities[i]).0 < self.next_entity_id
        &&& self.entities.no_duplicates()
    }

    /// Whether the entity is alive.
    pub open spec fn is_alive(self, entity: Entity) -> bool {
        self.entities.contains(entity)
    }

    /// The registry without the entity.
    pub open spec fn without(self, entity: Entity) -> RegistryView {
        RegistryView { entities: self.entities.filter(other_than(entity)), ..self }
    }
}

/// Hands out entities and keeps the list of those alive.
pub struct EntityRegistry {
    entities: Vec<Entity>,
    next_entity_id: u32,
}

impl View for EntityRegistry {
    type V = RegistryView;

    closed spec fn view(&self) -> RegistryView {
        RegistryView { entities: self.entities@, next_entity_id: self.next_entity_id }
    }
}

impl EntityRegistry {
    /// Creates a registry without entities.
    pub fn new() -> (registry: EntityRegistry)
        ensures
            registry@.entities == Seq::<Entity>::empty(),
            registry@.next_entity_id == 0,
            registry@.wf(),
    {
        EntityRegistry { entities: Vec::new(), next_entity_id: 0 }
    }

    /// Creates an entity under the next number and returns it.
    pub fn create_entity(&mut self) -> (entity: Entity)
        requires
            old(self)@.wf(),
            old(self)@.next_entity_id < u32::MAX,
        ensures
            entity == Entity(old(self)@.next_entity_id),
            !old(self)@.is_alive(entity),
            final(self)@.entities == old(self)@.entities.push(entity),
            final(self)@.next_entity_id == old(self)@.next_entity_id + 1,
            final(self)@.wf(),
    {
        let entity = Entity(self.next_entity_id);
        self.next_entity_id = self.next_entity_id + 1;
        self.entities.push(entity);
        proof {
            assert forall|i: int, j: int|
                0 <= i < self@.entities.len() && 0 <= j < self@.entities.len() && i
                    != j implies self@.entities[i] != self@.entities[j] by {
                if i < old(self)@.entities.len() {
                    assert(old(self)@.entities[i].0 < entity.0);
                }
                if j < old(self)@.entities.len() {
                    assert(old(self)@.entities[j].0 < entity.0);
                }
            }
            assert forall|i: int| 0 <= i < old(self)@.entities.len() implies old(self)@.entities[i]
                != entity by {
                assert(old(self)@.entities[i].0 < entity.0);
            }
        }
        entity
    }

    /// The number that the next entity gets.
    pub fn next_entity_id(&self) -> (next: u32)
        ensures
            next == self@.next_entity_id,
    {
        self.next_entity_id
    }

    /// Takes an entity off the list of the living and says whether it was
    /// on it.
    pub fn destroy_entity(&mut self, entity: Entity) -> (was_alive: bool)
        requires
            old(self)@.wf(),
        ensures
            was_alive == old(self)@.is_alive(entity),
            final(self)@ == old(self)@.without(entity),
            final(self)@.wf(),
            !final(self)@.is_alive(entity),
            forall|other: Entity|
                other != entity ==> final(self)@.is_alive(other) == old(self)@.is_alive(other),
    {
        let mut i: usize = 0;
        while i < self.entities.len()
            invariant
                i <= self.entities.len(),
                *self == *old(self),
                old(self)@.wf(),
                forall|j: int| 0 <= j < i ==> self@.entities[j] != entity,
            decreases self.entities.len() - i,
        {
            if self.entities[i] == entity {
                self.entities.remove(i);
                proof {
                    lemma_remove_only_occurrence(old(self)@.entities, entity, i as int);
                }
                return true;
            }
            i += 1;
        }
        proof {
            lemma_filter_absent(self@.entities, entity);
        }
        false
    }

    /// The living entities, in the order of their creation.
    pub fn entities(&self) -> (entities: &Vec<Entity>)
        ensures
            entities@ == self@.entities,
    {
        &self.entities
    }

    /// Whether the entity is alive.
    pub fn is_alive(&self, entity: Entity) -> (alive: bool)
        ensures
            alive == self@.is_alive(entity),
    {
        let mut i: usize = 0;
        while i < self.entities.len()
            invariant
                i <= self.entities.len(),
                forall|j: int| 0 <= j < i ==> self@.entities[j] != entity,
            decreases self.entities.len() - i,
        {
            if self.entities[i] == entity {
                return true;
            }
            i += 1;
        }
        false
    }
}

/// The world: all entities and their components.
pub struct World<T: Component, V: Component> {
    /// The entities.
    pub registry: EntityRegistry,
    /// Where each entity is.
    pub transforms: ComponentStorage<T>,
    /// How each entity moves.
    pub velocities: ComponentStorage<V>,
    /// How each entity is drawn.
    pub renderables: ComponentStorage<Renderable>,
    /// Which entities stand for portals.
    pub portal_entities: ComponentStorage<PortalEntity>,
}

impl<T: Component, V: Component> World<T, V> {
    /// Whether the entity both is somewhere and moves: it has a transform
    /// and a velocity.
    pub open spec fn moves(self, entity: Entity) -> bool {
        self.transforms@.contains_key(entity) && self.velocities@.contains_key(entity)
    }

    /// The entities of the world that move.
    pub open spec fn moving(self) -> spec_fn(Entity) -> bool {
        |e: Entity| self.moves(e)
    }

    /// `after` is what `step` made of the transform `before` of an entity:
    /// the transform that `step` gave, or `before` itself where it gave
    /// none.
    pub open spec fn stepped<F: Fn(Entity, &T, &V) -> Option<T>>(
        step: F,
        entity: Entity,
        before: T,
        velocity: V,
        after: T,
    ) -> bool {
        ||| call_ensures(step, (entity, &before, &velocity), Some(after))
        ||| call_ensures(step, (entity, &before, &velocity), None) && after == before
    }

    /// Creates an empty world.
    pub fn new() -> (world: Self)
        ensures
            world.registry@.entities == Seq::<Entity>::empty(),
            world.registry@.next_entity_id == 0,
            world.registry@.wf(),
            world.transforms@ == Map::<Entity, T>::empty(),
            world.velocities@ == Map::<Entity, V>::empty(),
            world.renderables@ == Map::<Entity, Renderable>::empty(),
            world.portal_entities@ == Map::<Entity, PortalEntity>::empty(),
    {
        World {
            registry: EntityRegistry::new(),
            transforms: ComponentStorage::new(),
            velocities: ComponentStorage::new(),
            renderables: ComponentStorage::new(),
            portal_entities: ComponentStorage::new(),
        }
    }

    /// Creates an entity under the next number and returns it. It has no
    /// components of its own yet, and the components of the others stay.
    pub fn create_entity(&mut self) -> (entity: Entity)
        requires
            old(self).registry@.wf(),
            old(self).registry@.next_entity_id < u32::MAX,
        ensures
            entity == Entity(old(self).registry@.next_entity_id),
            !old(self).registry@.is_alive(entity),
            final(self).registry@.entities == old(self).registry@.entities.push(entity),
            final(self).registry@.next_entity_id == old(self).registry@.next_entity_id + 1,
            final(self).registry@.wf(),
            final(self).transforms == old(self).transforms,
            final(self).velocities == old(self).velocities,
            final(self).renderables == old(self).renderables,
            final(self).portal_entities == old(self).portal_entities,
    {
        self.registry.create_entity()
    }

    /// Destroys an entity with all its components. Nothing happens where
    /// the entity is not alive.
    pub fn destroy_entity(&mut self, entity: Entity)
        requires
            old(self).registry@.wf(),
        ensures
            final(self).registry@ == old(self).registry@.without(entity),
            final(self).registry@.wf(),
            !final(self).registry@.is_alive(entity),
            old(self).registry@.is_alive(entity) ==> {
                &&& final(self).transforms@ == old(self).transforms@.remove(entity)
                &&& final(self).velocities@ == old(self).velocities@.remove(entity)
                &&& final(self).renderables@ == old(self).renderables@.remove(entity)
                &&& final(self).portal_entities@ == old(self).portal_entities@.remove(entity)
            },
            !old(self).registry@.is_alive(entity) ==> {
                &&& final(self).transforms == old(self).transforms
                &&& final(self).velocities == old(self).velocities
                &&& final(self).renderables == old(self).renderables
                &&& final(self).portal_entities == old(self).portal_entities
            },
    {
        if self.registry.destroy_entity(entity) {
            self.transforms.remove_component(entity);
            self.velocities.remove_component(entity);
            self.renderables.remove_component(entity);
            self.portal_entities.remove_component(entity);
        }
    }

    /// The living entities, in the order of their creation.
    pub fn entities(&self) -> (entities: &Vec<Entity>)
        ensures
            entities@ == self.registry@.entities,
    {
        self.registry.entities()
    }

    /// The living entities that both are somewhere and move, in the order
    /// of their creation.
    pub fn moving_entities(&self) -> (moving: Vec<Entity>)
        ensures
            moving@ == self.registry@.entities.filter(self.moving()),
    {
        let ghost both = self.moving();
        let entities = self.registry.entities();
        let mut moving: Vec<Entity> = Vec::new();
        let mut i: usize = 0;
        proof {
            lemma_filter_none(entities@, both);
        }
        while i < entities.len()
            invariant
                i <= entities.len(),
                both == self.moving(),
                moving@ == entities@.take(i as int).filter(both),
            decreases entities.len() - i,
        {
            let entity = entities[i];
            proof {
                lemma_filter_step(entities@, both, i as int);
            }
            if self.transforms.has_component(entity) && self.velocities.has_component(entity) {
                moving.push(entity);
            }
            i += 1;
        }
        proof {
            lemma_filter_none(entities@, both);
        }
        moving
    }

    /// Moves the world on by one tick: every living entity that has a
    /// transform and a velocity is handed to `step`, in the order of
    /// creation and once, and gets the transform that `step` gives for it.
    /// Where `step` gives none the entity keeps its transform. Nothing else
    /// changes.
    pub fn update_moving<F: Fn(Entity, &T, &V) -> Option<T>>(&mut self, step: F)
        requires
            old(self).registry@.wf(),
            forall|entity: Entity, transform: T, velocity: V|
                call_requires(step, (entity, &transform, &velocity)),
        ensures
            final(self).registry == old(self).registry,
            final(self).velocities == old(self).velocities,
            final(self).renderables == old(self).renderables,
            final(self).portal_entities == old(self).portal_entities,
            final(self).transforms@.dom() == old(self).transforms@.dom(),
            forall|entity: Entity| #[trigger]
                old(self).transforms@.contains_key(entity) ==> if old(self).registry@.is_alive(
                    entity,
                ) && old(self).moves(entity) {
                    Self::stepped(
                        step,
                        entity,
                        old(self).transforms@[entity],
                        old(self).velocities@[entity],
                        final(self).transforms@[entity],
                    )
                } else {
                    final(self).transforms@[entity] == old(self).transforms@[entity]
                },
    {
        let moving = self.moving_entities();
        let ghost entities = self.registry@.entities;
        let ghost both = self.moving();
        proof {
            lemma_filter_no_duplicates(entities, both);
        }
        let mut i: usize = 0;
        while i < moving.len()
            invariant
                i <= moving@.len(),
                both == old(self).moving(),
                entities == old(self).registry@.entities,
                moving@ == entities.filter(both),
                moving@.no_duplicates(),
                self.registry == old(self).registry,
                self.velocities == old(self).velocities,
                self.renderables == old(self).renderables,
                self.portal_entities == old(self).portal_entities,
                self.transforms@.dom() == old(self).transforms@.dom(),
                forall|entity: Entity, transform: T, velocity: V|
                    call_requires(step, (entity, &transform, &velocity)),
                forall|j: int|
                    0 <= j < i ==> Self::stepped(
                        step,
                        #[trigger] moving@[j],
                        old(self).transforms@[moving@[j]],
                        old(self).velocities@[moving@[j]],
                        self.transforms@[moving@[j]],
                    ),
                forall|entity: Entity|
                    old(self).transforms@.contains_key(entity) && !moving@.take(i as int).contains(
                        entity,
                    ) ==> #[trigger] self.transforms@[entity] == old(self).transforms@[entity],
            decreases moving.len() - i,
        {
            let entity = moving[i];
            proof {
                lemma_filter_member(entities, both, i as int);
                assert(old(self).moves(entity));
                assert(!moving@.take(i as int).contains(entity)) by {
                    if moving@.take(i as int).contains(entity) {
                        let j = choose|j: int|
                            0 <= j < moving@.take(i as int).len() && moving@.take(i as int)[j]
                                == entity;
                        assert(moving@[j] == moving@[i as int]);
                    }
                }
                assert(moving@.take(i + 1) =~= moving@.take(i as int).push(entity));
            }
            let ghost before = self.transforms@;
            let transform = self.transforms.get_component(entity);
            let velocity = self.velocities.get_component(entity);
            let next = match (transform, velocity) {
                (Some(transform), Some(velocity)) => step(entity, transform, velocity),
                _ => None,
            };
            match next {
                Some(transform) => {
                    self.transforms.add_component(entity, transform);
                    proof {
                        assert(self.transforms@.dom() =~= before.dom());
                    }
                },
                None => {},
            }
            proof {
                assert forall|j: int| 0 <= j < i + 1 implies Self::stepped(
                    step,
                    #[trigger] moving@[j],
                    old(self).transforms@[moving@[j]],
                    old(self).velocities@[moving@[j]],
                    self.transforms@[moving@[j]],
                ) by {
                    if j < i {
                        assert(moving@[j] != entity);
                        assert(self.transforms@[moving@[j]] == before[moving@[j]]);
                    }
                }
                assert forall|other: Entity|
                    old(self).transforms@.contains_key(other) && !moving@.take(i + 1).contains(
                        other,
                    ) implies #[trigger] self.transforms@[other] == old(self).transforms@[other] by {
                    if moving@.take(i as int).contains(other) {
                        let j = choose|j: int|
                            0 <= j < moving@.take(i as int).len() && moving@.take(i as int)[j]
                                == other;
                        assert(moving@.take(i + 1)[j] == other);
                    }
                    assert(other != entity) by {
                        if other == entity {
                            assert(moving@.take(i + 1)[i as int] == entity);
                        }
                    }
                }
            }
            i += 1;
        }
        proof {
            assert(moving@.take(moving@.len() as int) =~= moving@);
            assert forall|entity: Entity| #[trigger]
                old(self).transforms@.contains_key(entity) implies if old(self).registry@.is_alive(
                    entity,
                ) && old(self).moves(entity) {
                    Self::stepped(
                        step,
                        entity,
                        old(self).transforms@[entity],
                        old(self).velocities@[entity],
                        self.transforms@[entity],
                    )
                } else {
                    self.transforms@[entity] == old(self).transforms@[entity]
                } by {
                if old(self).registry@.is_alive(entity) && old(self).moves(entity) {
                    lemma_filter_keeps(entities, both, entity);
                    let j = choose|j: int| 0 <= j < moving@.len() && moving@[j] == entity;
                    assert(Self::stepped(
                        step,
                        moving@[j],
                        old(self).transforms@[moving@[j]],
                        old(self).velocities@[moving@[j]],
                        self.transforms@[moving@[j]],
                    ));
                } else {
                    if moving@.contains(entity) {
                        let j = choose|j: int| 0 <= j < moving@.len() && moving@[j] == entity;
                        lemma_filter_member(entities, both, j);
                    }
                }
            }
        }
    }
}

/// Filtering a value out of a sequence that does not hold it changes
/// nothing.
proof fn lemma_filter_absent(s: Seq<Entity>, entity: Entity)
    requires
        !s.contains(entity),
    ensures
        s.filter(other_than(entity)) == s,
    decreases s.len(),
{
    reveal(Seq::filter);
    let pred = other_than(entity);
    if s.len() > 0 {
        assert forall|j: int| 0 <= j < s.drop_last().len() implies s.drop_last()[j] != entity by {
            assert(s[j] == s.drop_last()[j]);
            assert(s.contains(s[j]));
        }
        lemma_filter_absent(s.drop_last(), entity);
        assert(s.contains(s.last()));
        assert(s.drop_last().push(s.last()) =~= s);
    }
}

/// Where a value occurs once in a sequence, filtering it out removes that
/// one occurrence.
proof fn lemma_remove_only_occurrence(s: Seq<Entity>, entity: Entity, i: int)
    requires
        0 <= i < s.len(),
        s[i] == entity,
        s.no_duplicates(),
    ensures
        s.filter(other_than(entity)) == s.remove(i),
        !s.remove(i).contains(entity),
        s.remove(i).no_duplicates(),
        forall|other: Entity| other != entity ==> s.remove(i).contains(other) == s.contains(other),
        forall|j: int| 0 <= j < s.remove(i).len() ==> s.contains(#[trigger] s.remove(i)[j]),
{
    let pred = other_than(entity);
    let head = s.take(i);
    let tail = s.skip(i + 1);
    assert(s =~= head + seq![entity] + tail);
    assert(s.remove(i) =~= head + tail);
    assert(!head.contains(entity)) by {
        if head.contains(entity) {
            let j = choose|j: int| 0 <= j < head.len() && head[j] == entity;
            assert(s[j] == entity);
        }
    }
    assert(!tail.contains(entity)) by {
        if tail.contains(entity) {
            let j = choose|j: int| 0 <= j < tail.len() && tail[j] == entity;
            assert(s[j + i + 1] == entity);
        }
    }
    lemma_filter_absent(head, entity);
    lemma_filter_absent(tail, entity);
    Seq::filter_distributes_over_add(head + seq![entity], tail, pred);
    Seq::filter_distributes_over_add(head, seq![entity], pred);
    assert(seq![entity].filter(pred) =~= Seq::<Entity>::empty()) by {
        reveal_with_fuel(Seq::filter, 2);
        assert(seq![entity].drop_last() =~= Seq::<Entity>::empty());
    }
    assert(s.filter(pred) =~= head + tail);
    assert(!s.remove(i).contains(entity)) by {
        if s.remove(i).contains(entity) {
            let j = choose|j: int| 0 <= j < s.remove(i).len() && s.remove(i)[j] == entity;
            if j < i {
                assert(head[j] == entity);
            } else {
                assert(tail[j - i] == entity);
            }
        }
    }
    assert forall|other: Entity| other != entity implies s.remove(i).contains(other) == s.contains(
        other,
    ) by {
        if s.contains(other) {
            let j = choose|j: int| 0 <= j < s.len() && s[j] == other;
            if j < i {
                assert(s.remove(i)[j] == other);
            } else {
                assert(s.remove(i)[j - 1] == other);
            }
        }
        if s.remove(i).contains(other) {
            let j = choose|j: int| 0 <= j < s.remove(i).len() && s.remove(i)[j] == other;
            if j < i {
                assert(s[j] == other);
            } else {
                assert(s[j + 1] == other);
            }
        }
    }
    assert forall|a: int, b: int|
        0 <= a < s.remove(i).len() && 0 <= b < s.remove(i).len() && a != b implies s.remove(i)[a]
        != s.remove(i)[b] by {
        let a0 = if a < i { a } else { a + 1 };
        let b0 = if b < i { b } else { b + 1 };
        assert(s.remove(i)[a] == s[a0]);
        assert(s.remove(i)[b] == s[b0]);
    }
    assert forall|j: int| 0 <= j < s.remove(i).len() implies s.contains(
        #[trigger] s.remove(i)[j],
    ) by {
        if j < i {
            assert(s[j] == s.remove(i)[j]);
        } else {
            assert(s[j + 1] == s.remove(i)[j]);
        }
    }
}

/// The system that keeps transforms in step with the manifold. It leaves
/// the world as it is.
pub struct TransformSystem;

/// Number of steps of the geodesic that an entity is taken along when it
/// goes through a portal.
pub const TRANSITION_STEPS: usize = 10;

/// An entity went through a portal.
#[derive(Debug, Clone, Copy, PartialEq, Eq, Structural)]
pub struct Crossing {
    /// The portal it went through.
    pub portal: PortalId,
    /// The chart it left. The geodesic from where it was to where it met
    /// the portal is computed in this chart.
    pub from_chart: ChartId,
    /// The chart it entered. Its orientation is carried along the geodesic
    /// in this chart.
    pub to_chart: ChartId,
}

/// The system that moves entities through portals.
///
/// It reads a manifold that does not change while the system is at work.
pub struct PortalTransitionSystem {
    manifold: Arc<Manifold>,
}

impl View for PortalTransitionSystem {
    type V = ManifoldView;

    closed spec fn view(&self) -> ManifoldView {
        self.manifold@
    }
}

impl PortalTransitionSystem {
    /// Creates the system for a manifold.
    pub fn new(manifold: Arc<Manifold>) -> (system: PortalTransitionSystem)
        ensures
            system@ == manifold@,
    {
        PortalTransitionSystem { manifold }
    }

    /// The manifold that the system reads.
    pub fn manifold(&self) -> (manifold: &Manifold)
        ensures
            manifold@ == self@,
    {
        &self.manifold
    }

    /// Moves one entity for one tick.
    ///
    /// `hit_test` tells where the ray from the entity's position along its
    /// velocity meets a portal. The portals out of the entity's chart are
    /// tried in creation order. On the first hit the entity is put at the
    /// point of the hit in the chart that the portal leads into, and the
    /// crossing is reported. Without a hit the entity stays where it is.
    pub fn transition<L, F: Fn(PortalId) -> Option<L>>(
        &self,
        position: ManifoldPosition<L>,
        hit_test: F,
    ) -> (moved: (ManifoldPosition<L>, Option<Crossing>))
        requires
            self@.wf(),
            self@.may_test(position.chart_id, hit_test),
        ensures
            match moved.1 {
                Some(crossing) => {
                    &&& self@.first_hit(
                        position.chart_id,
                        hit_test,
                        Some((crossing.portal, moved.0.local, crossing.to_chart)),
                    )
                    &&& crossing.from_chart == position.chart_id
                    &&& moved.0.chart_id == crossing.to_chart
                },
                None => {
                    &&& self@.first_hit(position.chart_id, hit_test, None::<(PortalId, L, ChartId)>)
                    &&& moved.0 == position
                },
            },
    {
        let from_chart = position.chart_id;
        match self.manifold.ray_portal_intersection(from_chart, hit_test) {
            Some((portal, point, to_chart)) => (
                ManifoldPosition::new(to_chart, point),
                Some(Crossing { portal, from_chart, to_chart }),
            ),
            None => (position, None),
        }
    }
}

} // verus!
