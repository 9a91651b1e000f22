//! Identifiers of entities and of reactors.

use bevy::ecs::entity::Entity;
use vstd::prelude::*;

verus! {

/// Identifier of an entity: the index of its row in the entity table and the
/// generation of that row.
///
/// Two identifiers name the same entity exactly when both parts agree. The
/// index `u32::MAX` names no row, so no identifier holds it.
#[derive(Clone, Copy, Debug, PartialEq, Eq, Hash, Structural)]
pub struct EntityId {
    index: u32,
    generation: u32,
}

impl EntityId {
    #[verifier::type_invariant]
    spec fn valid(self) -> bool {
        self.index < u32::MAX
    }

    /// The identifier with the given parts, as a mathematical value.
    pub closed spec fn from_parts(index: u32, generation: u32) -> EntityId {
        EntityId { index, generation }
    }

    /// The row index of this identifier.
    pub closed spec fn spec_index(self) -> u32 {
        self.index
    }

    /// The generation of this identifier.
    pub closed spec fn spec_generation(self) -> u32 {
        self.generation
    }

    /// What a row index alone identifies: the first generation of that row,
    /// or nothing for `u32::MAX`.
    pub open spec fn first_of_row(row: u32) -> Option<EntityId> {
        if row == u32::MAX {
            None
        } else {
            Some(EntityId::from_parts(row, 0))
        }
    }

    /// An identifier is determined by its parts.
    pub broadcast proof fn lemma_parts(index: u32, generation: u32)
        ensures
            (#[trigger] EntityId::from_parts(index, generation)).spec_index() == index,
            EntityId::from_parts(index, generation).spec_generation() == generation,
    {
    }

    /// Two identifiers with the same parts are the same identifier.
    pub proof fn lemma_same_parts(self, other: EntityId)
        ensures
            (self == other) <==> (self.spec_index() == other.spec_index()
                && self.spec_generation() == other.spec_generation()),
    {
    }

    /// Builds the identifier of row `index` in generation `generation`;
    /// `None` exactly when `index` is `u32::MAX`.
    pub fn new(index: u32, generation: u32) -> (id: Option<EntityId>)
        ensures
            id == if index == u32::MAX {
                None
            } else {
                Some(EntityId::from_parts(index, generation))
            },
            id matches Some(e) ==> e.spec_index() == index && e.spec_generation() == generation,
    {
        if index == u32::MAX {
            None
        } else {
            Some(EntityId { index, generation })
        }
    }

    /// The row index; never `u32::MAX`.
    #[verifier::when_used_as_spec(spec_index)]
    pub fn index(self) -> (index: u32)
        ensures
            index == self.spec_index(),
            index < u32::MAX,
    {
        proof {
            use_type_invariant(&self);
        }
        self.index
    }

    /// The generation of the row.
    #[verifier::when_used_as_spec(spec_generation)]
    pub fn generation(self) -> (generation: u32)
        ensures
            generation == self.spec_generation(),
    {
        self.generation
    }
}

/// `bevy::ecs::entity::Entity::from_raw_u32`, with the entity it builds read
/// back through `Entity::index` and `Entity::generation`.
///
/// Trusted: bevy returns `None` for the row `u32::MAX` and otherwise the
/// entity of that row in the first generation, whose bits are zero.
#[verifier::external_body]
pub(crate) fn entity_from_raw_u32(row: u32) -> (id: Option<EntityId>)
    ensures
        id == EntityId::first_of_row(row),
{
    match Entity::from_raw_u32(row) {
        Some(entity) => Some(EntityId { index: entity.index(), generation: entity.generation().to_bits() }),
        None => None,
    }
}

/// Identifier of a reactor: the entity under which the scheduler registered
/// the reactor's system.
#[derive(Clone, Copy, Debug, PartialEq, Eq, Hash, Structural)]
pub struct ReactorId(pub EntityId);

} // verus!
