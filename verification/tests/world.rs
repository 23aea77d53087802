use std::any::TypeId;

use yamc::world::chunk::size::{CHUNK_SIZE_X, CHUNK_SIZE_Y, CHUNK_SIZE_Z};
use yamc::world::chunk::ChunkArray;
use yamc::world::coords::{global_to_local, local_to_global};
use yamc::world::voxel::array::VoxelArray;
use yamc::world::voxel::registry::{AttributeRegistries, AttributeRegistry, NameRegistry};
use yamc::world::voxel::{
    Error, Event, Voxel, VoxelAttributeRegistry, VoxelError, VoxelNameRegistry, VoxelSystem,
};
use yamc::world::{ChunkGenerator, World};

const AIR: Voxel = Voxel { id: 0, data: 0 };
const STONE: Voxel = Voxel { id: 1, data: 0 };

struct Layered;

impl ChunkGenerator for Layered {
    fn generate(&self, x: i32, y: i32, z: i32) -> VoxelArray {
        let mut chunk = VoxelArray::new(AIR);
        *chunk.get_voxel_at_position_mut(3, 4, 5) = Voxel { id: 7, data: (x + y + z) as u16 };
        chunk
    }
}

#[test]
fn world_holds_the_origin_chunk() {
    let world = World::new(Box::new(Layered));
    let chunk = world.get_chunk_at_position(0, 0, 0);
    assert_eq!(*chunk.get_voxel_at_position(3, 4, 5), Voxel { id: 7, data: 0 });
    assert_eq!(*chunk.get_voxel_at_position(0, 0, 0), AIR);
}

#[test]
fn world_keeps_the_chunk_it_is_given() {
    let mut chunk = VoxelArray::new(STONE);
    *chunk.get_voxel_at_index_mut(17) = AIR;
    let world = World::with_origin_chunk(chunk, Box::new(Layered));
    let held = world.get_chunk_at_position(0, 0, 0);
    assert_eq!(*held.get_voxel_at_index(17), AIR);
    assert_eq!(*held.get_voxel_at_index(16), STONE);
}

#[test]
fn chunk_extent_is_sixteen_each_way() {
    assert_eq!((CHUNK_SIZE_X, CHUNK_SIZE_Y, CHUNK_SIZE_Z), (16, 16, 16));
}

#[test]
fn voxels_compare_by_id() {
    let plain = Voxel { id: 5, data: 0 };
    let marked = Voxel { id: 5, data: 9 };
    assert!(plain.id_eq(&marked));
    assert!(plain != marked);
    assert!(!plain.id_eq(&Voxel { id: 6, data: 0 }));
}

#[test]
fn voxel_index_runs_along_x_then_y_then_z() {
    assert_eq!(VoxelArray::get_voxel_index(0, 0, 0), 0);
    assert_eq!(VoxelArray::get_voxel_index(1, 0, 0), 1);
    assert_eq!(VoxelArray::get_voxel_index(0, 1, 0), 16);
    assert_eq!(VoxelArray::get_voxel_index(0, 0, 1), 256);
    assert_eq!(VoxelArray::get_voxel_index(3, 4, 5), 5 * 256 + 4 * 16 + 3);
    assert_eq!(VoxelArray::get_voxel_index(15, 15, 15), 4095);
    assert_eq!(VoxelArray::get_voxel_index(17, 0, 0), 17);
}

#[test]
fn new_voxel_array_is_filled_with_the_default() {
    let array = VoxelArray::new(STONE);
    for i in 0..4096 {
        assert_eq!(*array.get_voxel_at_index(i), STONE);
    }
    assert_eq!(*array.get_voxel_at_position(15, 15, 15), STONE);
}

#[test]
fn writing_a_voxel_changes_that_voxel_only() {
    let mut array = VoxelArray::new(AIR);
    *array.get_voxel_at_position_mut(1, 2, 3) = STONE;
    let written = 3 * 256 + 2 * 16 + 1;
    for i in 0..4096 {
        let expected = if i == written { STONE } else { AIR };
        assert_eq!(*array.get_voxel_at_index(i), expected);
    }
    array.get_voxel_at_index_mut(written).data = 12;
    assert_eq!(*array.get_voxel_at_position(1, 2, 3), Voxel { id: 1, data: 12 });
    assert_eq!(*array.get_voxel_at_index(written + 1), AIR);
}

#[test]
fn chunk_array_stores_one_value_per_position() {
    let mut chunks: ChunkArray<u32> = ChunkArray::new();
    assert_eq!(chunks.get(0, 0, 0), None);
    assert_eq!(chunks.try_add(10, 0, 0, 0), Ok(()));
    assert_eq!(chunks.try_add(11, 0, 0, 0), Err(()));
    assert_eq!(chunks.get(0, 0, 0), Some(&10));
    chunks.add(20, -1, 2, 3);
    assert_eq!(chunks.get(-1, 2, 3), Some(&20));
    assert_eq!(chunks.get(2, -1, 3), None);
    assert_eq!(chunks.iter().len(), 2);
}

#[test]
fn chunk_array_hands_out_mutable_access() {
    let mut chunks: ChunkArray<u32> = ChunkArray::new();
    chunks.add(1, 4, 5, 6);
    chunks.add(2, 4, 5, 7);
    assert!(chunks.get_mut(0, 0, 0).is_none());
    *chunks.get_mut(4, 5, 6).unwrap() += 40;
    assert_eq!(chunks.get(4, 5, 6), Some(&41));
    assert_eq!(chunks.get(4, 5, 7), Some(&2));
}

#[test]
fn chunk_array_walks_in_ascending_order() {
    let mut chunks: ChunkArray<&str> = ChunkArray::new();
    chunks.add("d", 1, -5, 0);
    chunks.add("b", -1, 7, 7);
    chunks.add("e", 1, 0, -3);
    chunks.add("a", -2, 9, 9);
    chunks.add("c", -1, 7, 8);
    chunks.add("f", 1, 0, 2);
    let mut walk = chunks.iter();
    assert_eq!(walk.len(), 6);
    let mut seen = Vec::new();
    while let Some((position, value)) = walk.next() {
        seen.push((*position, *value));
    }
    assert_eq!(
        seen,
        vec![
            ((-2, 9, 9), "a"),
            ((-1, 7, 7), "b"),
            ((-1, 7, 8), "c"),
            ((1, -5, 0), "d"),
            ((1, 0, -3), "e"),
            ((1, 0, 2), "f"),
        ]
    );
    assert_eq!(walk.len(), 0);
    assert_eq!(walk.next(), None);
}

#[test]
fn empty_chunk_array_walk_ends_at_once() {
    let chunks: ChunkArray<u8> = ChunkArray::new();
    let mut walk = chunks.iter();
    assert_eq!(walk.len(), 0);
    assert_eq!(walk.next(), None);
}

#[test]
fn attribute_registry_keeps_the_first_attribute_of_an_id() {
    let mut hardness: AttributeRegistry<u32> = AttributeRegistry::new("hardness");
    assert_eq!(hardness.get_label(), "hardness");
    assert_eq!(hardness.find(0), Err(Error::AttributeMissing(0)));
    assert_eq!(hardness.register(3, 30), Ok(()));
    assert_eq!(hardness.register(0, 5), Ok(()));
    assert_eq!(hardness.register(3, 31), Err(Error::AttributeAlreadyRegistered(3)));
    assert_eq!(hardness.find(3), Ok(&30));
    assert_eq!(hardness.find(0), Ok(&5));
    assert_eq!(hardness.find(1), Err(Error::AttributeMissing(1)));
    assert_eq!(hardness.find(2), Err(Error::AttributeMissing(2)));
    assert_eq!(hardness.find(4), Err(Error::AttributeMissing(4)));
    assert_eq!(hardness.get_label(), "hardness");
}

#[test]
fn attribute_registry_takes_the_largest_id() {
    let mut names: AttributeRegistry<String> = AttributeRegistry::new("display name");
    assert_eq!(names.register(u16::MAX, String::from("bedrock")), Ok(()));
    assert_eq!(names.find(u16::MAX), Ok(&String::from("bedrock")));
    assert_eq!(names.find(u16::MAX - 1), Err(Error::AttributeMissing(u16::MAX - 1)));
}

#[test]
fn name_registry_binds_names_to_ids() {
    let mut names = NameRegistry::new();
    assert_eq!(names.find("stone"), None);
    assert_eq!(names.add("stone", 1), Ok(()));
    assert_eq!(names.add("dirt", 2), Ok(()));
    assert_eq!(names.find("stone"), Some(1));
    assert_eq!(names.find("dirt"), Some(2));
    assert_eq!(names.find("Stone"), None);
    assert_eq!(names.find(""), None);
}

#[test]
fn name_registry_rebinds_a_taken_name_and_reports_the_old_id() {
    let mut names = NameRegistry::new();
    assert_eq!(names.add("stone", 1), Ok(()));
    assert_eq!(names.add("stone", 9), Err(Error::NameAlreadyRegistered(1)));
    assert_eq!(names.find("stone"), Some(9));
    assert_eq!(names.add("stone", 9), Err(Error::NameAlreadyRegistered(9)));
    assert_eq!(names.add("dirt", 9), Ok(()));
    assert_eq!(names.find("dirt"), Some(9));
}

#[test]
fn attribute_registries_hold_one_registry_per_type() {
    let mut registries: AttributeRegistries<&str> = AttributeRegistries::new();
    let hardness = TypeId::of::<u32>();
    let colour = TypeId::of::<(u8, u8, u8)>();
    assert_eq!(registries.get_registry(&hardness), None);
    assert_eq!(registries.add_registry(hardness, "u32", "hardness"), Ok(()));
    assert_eq!(registries.add_registry(colour, "(u8, u8, u8)", "colour"), Ok(()));
    assert_eq!(
        registries.add_registry(hardness, "u32", "toughness"),
        Err(Error::RegistryAlreadyAdded("u32"))
    );
    assert_eq!(registries.get_registry(&hardness), Some(&"hardness"));
    assert_eq!(registries.get_registry(&colour), Some(&"colour"));
    assert_eq!(registries.get_registry(&TypeId::of::<u64>()), None);
}

fn voxel_system() -> VoxelSystem<AttributeRegistry<u32>> {
    let mut names = NameRegistry::new();
    names.add("stone", 1).unwrap();
    let mut hardness = AttributeRegistry::new("hardness");
    hardness.register(1, 30).unwrap();
    let mut registries = AttributeRegistries::new();
    registries.add_registry(TypeId::of::<u32>(), "u32", hardness).unwrap();
    VoxelSystem::new(names, registries)
}

#[test]
fn voxel_system_starts_empty() {
    let system = voxel_system();
    assert!(system.get_chunk(0, 0, 0).is_none());
    assert!(system.get_events().is_empty());
    assert_eq!(system.name_registry().find("stone"), Some(1));
    let hardness = system.get_attribute_registry(&TypeId::of::<u32>()).unwrap();
    assert_eq!(hardness.find(1), Ok(&30));
    assert!(system.get_attribute_registry(&TypeId::of::<u8>()).is_none());
}

#[test]
fn loading_a_chunk_records_an_event() {
    let mut system = voxel_system();
    assert_eq!(system.load_chunk(VoxelArray::new(STONE), 1, -2, 3), Ok(()));
    assert_eq!(system.load_chunk(VoxelArray::new(AIR), 0, 0, 0), Ok(()));
    assert_eq!(
        *system.get_events(),
        vec![
            Event::ChunkLoaded { coords_x: 1, coords_y: -2, coords_z: 3 },
            Event::ChunkLoaded { coords_x: 0, coords_y: 0, coords_z: 0 },
        ]
    );
    assert_eq!(*system.get_chunk(1, -2, 3).unwrap().get_voxel_at_index(0), STONE);
    assert_eq!(*system.get_chunk(0, 0, 0).unwrap().get_voxel_at_index(0), AIR);
    assert!(system.get_chunk(3, -2, 1).is_none());
}

#[test]
fn loading_a_chunk_twice_is_refused() {
    let mut system = voxel_system();
    assert_eq!(system.load_chunk(VoxelArray::new(STONE), 1, 2, 3), Ok(()));
    assert_eq!(
        system.load_chunk(VoxelArray::new(AIR), 1, 2, 3),
        Err(Error::ChunkAlreadyLoaded(1, 2, 3))
    );
    assert_eq!(system.get_events().len(), 1);
    assert_eq!(*system.get_chunk(1, 2, 3).unwrap().get_voxel_at_index(0), STONE);
}

#[test]
fn resetting_events_keeps_the_chunks() {
    let mut system = voxel_system();
    system.load_chunk(VoxelArray::new(STONE), 1, 2, 3).unwrap();
    system.reset_events();
    assert!(system.get_events().is_empty());
    assert!(system.get_chunk(1, 2, 3).is_some());
    assert_eq!(system.name_registry().find("stone"), Some(1));
    system.load_chunk(VoxelArray::new(STONE), 1, 2, 4).unwrap();
    assert_eq!(
        *system.get_events(),
        vec![Event::ChunkLoaded { coords_x: 1, coords_y: 2, coords_z: 4 }]
    );
}

#[test]
fn local_to_global_scales_by_the_chunk_extent() {
    assert_eq!(local_to_global((0, 0, 0), (0, 0, 0)), (0, 0, 0));
    assert_eq!(local_to_global((3, 4, 5), (0, 0, 0)), (3, 4, 5));
    assert_eq!(local_to_global((3, 4, 5), (1, 2, -1)), (19, 36, -11));
    assert_eq!(local_to_global((15, 0, 15), (-1, -1, -1)), (-1, -16, -1));
    assert_eq!(local_to_global((15, 15, 15), (134217727, 0, -134217728)), (i32::MAX, 15, i32::MIN + 15));
    assert_eq!(local_to_global((u32::MAX, 0, 0), (1, 0, 0)), (15, 0, 0));
}

#[test]
fn global_to_local_splits_the_x_coordinate() {
    assert_eq!(global_to_local(0, 0, 0), ((0, 0, 0), (0, 0, 0)));
    assert_eq!(global_to_local(19, 0, 0), ((3, 0, 0), (1, 0, 0)));
    assert_eq!(global_to_local(-1, 0, 0), ((15, 0, 0), (-1, 0, 0)));
    assert_eq!(global_to_local(-16, 0, 0), ((0, 0, 0), (-1, 0, 0)));
    assert_eq!(global_to_local(-17, 0, 0), ((15, 0, 0), (-2, 0, 0)));
    assert_eq!(global_to_local(i32::MAX, 0, 0), ((15, 0, 0), (134217727, 0, 0)));
    assert_eq!(global_to_local(i32::MIN, 0, 0), ((0, 0, 0), (-134217728, 0, 0)));
}

#[test]
fn global_to_local_repeats_the_chunk_in_local_y_and_z() {
    assert_eq!(global_to_local(0, 36, 47), ((0, 2, 2), (0, 2, 2)));
    assert_eq!(global_to_local(0, 15, 16), ((0, 0, 1), (0, 0, 1)));
    assert_eq!(global_to_local(0, -1, -17), ((0, u32::MAX, u32::MAX - 1), (0, -1, -2)));
}

#[test]
fn global_x_survives_the_round_trip() {
    for x in [-33, -17, -16, -1, 0, 1, 15, 16, 255, 1000] {
        let (local, chunk) = global_to_local(x, 0, 0);
        assert_eq!(local_to_global((local.0, 0, 0), (chunk.0, 0, 0)).0, x);
    }
}

#[test]
fn older_names_reach_the_same_types() {
    let mut hardness: VoxelAttributeRegistry<u32> = VoxelAttributeRegistry::new("hardness");
    assert_eq!(hardness.register(2, 20), Ok(()));
    assert_eq!(hardness.get(2), Ok(&20));
    assert_eq!(hardness.get(1), Err(VoxelError::AttributeMissing(1)));
    assert_eq!(hardness.get(3), hardness.find(3));
    let mut names = VoxelNameRegistry::new();
    assert_eq!(names.add("stone", 1), Ok(()));
    assert_eq!(names.add("stone", 2), Err(VoxelError::NameAlreadyRegistered(1)));
}
