//! Entities and the world that owns them.
//!
//! Entities live in a growable arena and are addressed by integer index;
//! ids stay valid for the world's lifetime (nothing is removed). An entity
//! is assembled from a plain builder carrying optional components.

use vstd::prelude::*;
use crate::components::{HealthComponent, SpriteComponent, TransformComponent};
use crate::geo::V2;

verus! {

pub type EntityID = usize;

/// An entity: a transform plus optional components.
#[derive(Clone, Copy, PartialEq, Eq, Debug)]
pub struct Entity {
    pub transform: TransformComponent,
    pub sprite_component: Option<SpriteComponent>,
    pub health_component: Option<HealthComponent>,
}

/// An entity after one update: the sprite's draw position, if it has one,
/// synced to the transform's position.
pub open spec fn updated_entity(e: Entity) -> Entity {
    match e.sprite_component {
        Some(s) => Entity {
            sprite_component: Some(SpriteComponent { draw_pos: e.transform.position, ..s }),
            ..e
        },
        None => e,
    }
}

impl Entity {
    /// Starts assembling an entity: a zero transform, no components.
    pub fn builder() -> (r: EntityBuilder)
        ensures
            r.transform.position == (V2 { x: 0, y: 0 }),
            r.transform.scale == (V2 { x: 0, y: 0 }),
            r.transform.rotation is None,
            r.sprite_component is None,
            r.health_component is None,
    {
        EntityBuilder {
            transform: TransformComponent {
                position: V2 { x: 0, y: 0 },
                scale: V2 { x: 0, y: 0 },
                rotation: None,
            },
            sprite_component: None,
            health_component: None,
        }
    }

    /// Syncs the sprite's draw position to the transform.
    pub fn update(&mut self)
        ensures
            *final(self) == updated_entity(*old(self)),
    {
        if let Some(sprite) = &mut self.sprite_component {
            sprite.draw_pos = self.transform.position;
        }
    }
}

/// Assembles an entity from optional components, evaluated at construction
/// time.
#[derive(Clone, Copy, PartialEq, Eq, Debug)]
pub struct EntityBuilder {
    pub transform: TransformComponent,
    pub sprite_component: Option<SpriteComponent>,
    pub health_component: Option<HealthComponent>,
}

impl EntityBuilder {
    pub fn add_sprite_component(self, sprite: SpriteComponent) -> (r: EntityBuilder)
        ensures
            r == (EntityBuilder { sprite_component: Some(sprite), ..self }),
    {
        EntityBuilder { sprite_component: Some(sprite), ..self }
    }

    pub fn add_health_component(self, health: HealthComponent) -> (r: EntityBuilder)
        ensures
            r == (EntityBuilder { health_component: Some(health), ..self }),
    {
        EntityBuilder { health_component: Some(health), ..self }
    }

    pub fn build(self) -> (r: Entity)
        ensures
            r == (Entity {
                transform: self.transform,
                sprite_component: self.sprite_component,
                health_component: self.health_component,
            }),
    {
        Entity {
            transform: self.transform,
            sprite_component: self.sprite_component,
            health_component: self.health_component,
        }
    }
}

/// The world: an arena of entities addressed by index.
pub struct World {
    pub entities: Vec<Entity>,
}

impl World {
    pub fn new() -> (r: World)
        ensures
            r.entities@.len() == 0,
    {
        World { entities: Vec::new() }
    }

    /// Adds an entity; the returned id is its permanent index.
    pub fn add_entity(&mut self, entity: Entity) -> (id: EntityID)
        ensures
            id == old(self).entities@.len(),
            final(self).entities@ == old(self).entities@.push(entity),
    {
        let id = self.entities.len();
        self.entities.push(entity);
        id
    }

    /// The entity registered under `id`, if the id is in range.
    pub fn get_entity(&self, id: EntityID) -> (r: Option<&Entity>)
        ensures
            match r {
                Some(e) => id < self.entities@.len() && *e == self.entities@[id as int],
                None => id >= self.entities@.len(),
            },
    {
        if id < self.entities.len() {
            Some(&self.entities[id])
        } else {
            None
        }
    }

    /// Replaces the entity registered under `id`.
    pub fn set_entity(&mut self, id: EntityID, entity: Entity)
        requires
            id < old(self).entities@.len(),
        ensures
            final(self).entities@ == old(self).entities@.update(id as int, entity),
    {
        self.entities.set(id, entity);
    }

    /// Updates every entity: sprite draw positions are synced to their
    /// transforms.
    pub fn update(&mut self)
        ensures
            final(self).entities@
                == old(self).entities@.map_values(|e: Entity| updated_entity(e)),
    {
        let n = self.entities.len();
        let mut i: usize = 0;
        while i < n
            invariant
                i <= n,
                n == self.entities@.len(),
                n == old(self).entities@.len(),
                forall|j: int| 0 <= j < i ==>
                    self.entities@[j] == updated_entity(old(self).entities@[j]),
                forall|j: int| i <= j < n ==> self.entities@[j] == old(self).entities@[j],
            decreases n - i,
        {
            let mut e = self.entities[i];
            e.update();
            self.entities.set(i, e);
            i += 1;
        }
        proof {
            assert(self.entities@
                =~= old(self).entities@.map_values(|e: Entity| updated_entity(e)));
        }
    }
}

} // verus!
