//! Voxels and what is known about them.
//!
//! A [`Voxel`] is one cell of a chunk's grid. How a kind of voxel behaves is
//! laid down in attributes, one table per kind of attribute
//! ([`AttributeRegistry`]), each indexed by the voxel's id.

pub mod array;
pub mod registry;

use std::any::TypeId;
use vstd::prelude::*;
use crate::world::chunk::ChunkArray;

pub use crate::world::voxel::array::VoxelArray;
pub use crate::world::voxel::registry::{
    Attribute, AttributeRegistries, AttributeRegistry, NameRegistry,
};

verus! {

/// Why a request to the voxel system was turned down.
#[derive(Clone, Copy, Debug, PartialEq, Eq)]
pub enum Error {
    /// An attribute has already been registered for the id.
    AttributeAlreadyRegistered(u16),
    /// No attribute has been registered for the id.
    AttributeMissing(u16),
    /// The name was already taken, by the id given.
    NameAlreadyRegistered(u16),
    /// A registry for the attribute type, named here, has already been added.
    RegistryAlreadyAdded(&'static str),
    /// The chunk at the position has already been loaded.
    ChunkAlreadyLoaded(i32, i32, i32),
}

/// One block in a chunk.
#[derive(Clone, Copy, Debug, PartialEq, Eq, Structural)]
pub struct Voxel {
    /// The kind of this voxel.
    pub id: u16,
    /// Data that goes with this voxel.
    pub data: u16,
}

impl Voxel {
    /// Whether the two voxels are of the same kind, whatever their data.
    pub fn id_eq(&self, other: &Voxel) -> (same: bool)
        ensures
            same == (self.id == other.id),
    {
        self.id == other.id
    }
}

/// Something that happened in the voxel system and that others may want to
/// react to.
#[derive(Clone, Copy, Debug, PartialEq, Eq, Structural)]
pub enum Event {
    ChunkLoaded { coords_x: i32, coords_y: i32, coords_z: i32 },
}

/// The name under which older code knows [`Error`].
pub type VoxelError = Error;

/// The name under which older code knows [`AttributeRegistry`].
pub type VoxelAttributeRegistry<A> = AttributeRegistry<A>;

/// The name under which older code knows [`NameRegistry`].
pub type VoxelNameRegistry = NameRegistry;

/// Mathematical model of a [`VoxelSystem`].
pub struct VoxelSystemView<R> {
    /// The voxels of each loaded chunk.
    pub chunks: Map<(i32, i32, i32), Seq<Voxel>>,
    /// The id that each voxel name is bound to.
    pub names: Map<Seq<char>, u16>,
    /// The attribute registry of each attribute type.
    pub registries: Map<TypeId, R>,
    /// What happened since the events were last reset, oldest first.
    pub events: Seq<Event>,
}

/// The voxels of the world: the loaded chunks, the registries that give
/// voxel ids their meaning, and a record of what happened.
pub struct VoxelSystem<R> {
    chunks: ChunkArray<VoxelArray>,
    name_registry: NameRegistry,
    attribute_registries: AttributeRegistries<R>,
    recorded_events: Vec<Event>,
}

impl<R> View for VoxelSystem<R> {
    type V = VoxelSystemView<R>;

    closed spec fn view(&self) -> VoxelSystemView<R> {
        VoxelSystemView {
            chunks: self.chunks@.map_values(|voxels: VoxelArray| voxels@),
            names: self.name_registry@,
            registries: self.attribute_registries@,
            events: self.recorded_events@,
        }
    }
}

impl<R> VoxelSystem<R> {
    /// A system with the given registries, no chunk loaded and nothing
    /// recorded.
    pub fn new(name_registry: NameRegistry, attribute_registries: AttributeRegistries<R>) -> (system:
        VoxelSystem<R>)
        ensures
            system@.chunks == Map::<(i32, i32, i32), Seq<Voxel>>::empty(),
            system@.names == name_registry@,
            system@.registries == attribute_registries@,
            system@.events == Seq::<Event>::empty(),
    {
        let system = VoxelSystem {
            chunks: ChunkArray::new(),
            name_registry,
            attribute_registries,
            recorded_events: Vec::new(),
        };
        assert(system@.chunks =~= Map::<(i32, i32, i32), Seq<Voxel>>::empty());
        system
    }

    /// The voxels of the chunk at a position, if it is loaded.
    pub fn get_chunk(&self, x: i32, y: i32, z: i32) -> (chunk: Option<&VoxelArray>)
        ensures
            match chunk {
                Some(voxels) => self@.chunks.contains_key((x, y, z)) && voxels@ == self@.chunks[(
                    x,
                    y,
                    z,
                )],
                None => !self@.chunks.contains_key((x, y, z)),
            },
    {
        self.chunks.get(x, y, z)
    }

    /// The registry of voxel names.
    pub fn name_registry(&self) -> (registry: &NameRegistry)
        ensures
            registry@ == self@.names,
    {
        &self.name_registry
    }

    /// The registry of an attribute type, given by the type's identifier.
    pub fn get_attribute_registry(&self, type_id: &TypeId) -> (registry: Option<&R>)
        ensures
            match registry {
                Some(found) => self@.registries.contains_key(*type_id) && *found
                    == self@.registries[*type_id],
                None => !self@.registries.contains_key(*type_id),
            },
    {
        self.attribute_registries.get_registry(type_id)
    }

    /// Forgets the recorded events.
    pub fn reset_events(&mut self)
        ensures
            final(self)@ == (VoxelSystemView { events: Seq::<Event>::empty(), ..old(self)@ }),
    {
        self.recorded_events.clear();
    }

    /// What happened since the events were last reset, oldest first.
    pub fn get_events(&self) -> (events: &Vec<Event>)
        ensures
            events@ == self@.events,
    {
        &self.recorded_events
    }

    /// Takes in the voxels of the chunk at a position and records that the
    /// chunk was loaded. A chunk that is loaded already stays as it is.
    pub fn load_chunk(&mut self, voxels: VoxelArray, x: i32, y: i32, z: i32) -> (loaded: Result<
        (),
        Error,
    >)
        ensures
            match loaded {
                Ok(_) => !old(self)@.chunks.contains_key((x, y, z)) && final(self)@ == (
                VoxelSystemView {
                    chunks: old(self)@.chunks.insert((x, y, z), voxels@),
                    events: old(self)@.events.push(
                        Event::ChunkLoaded { coords_x: x, coords_y: y, coords_z: z },
                    ),
                    ..old(self)@
                }),
                Err(error) => error == Error::ChunkAlreadyLoaded(x, y, z) && old(
                    self,
                )@.chunks.contains_key((x, y, z)) && final(self)@ == old(self)@,
            },
    {
        match self.chunks.try_add(voxels, x, y, z) {
            Err(_) => Err(Error::ChunkAlreadyLoaded(x, y, z)),
            Ok(_) => {
                self.recorded_events.push(
                    Event::ChunkLoaded { coords_x: x, coords_y: y, coords_z: z },
                );
                assert(self@.chunks =~= old(self)@.chunks.insert((x, y, z), voxels@));
                Ok(())
            },
        }
    }
}

} // verus!
