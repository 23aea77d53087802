//! The mesh of a chunk: one cube of triangles for each solid voxel.
//!
//! Positions are whole numbers here, in voxel widths from the chunk's
//! origin; the renderer scales and colours them.

use vstd::prelude::*;
use crate::world::chunk::size::{CHUNK_SIZE_X, CHUNK_SIZE_Y, CHUNK_SIZE_Z};
use crate::world::voxel::array::{VoxelArray, chunk_volume, lemma_chunk_volume, voxel_index};
use crate::world::voxel::registry::{Attribute, AttributeRegistry};
use crate::world::voxel::Voxel;

verus! {

/// How a kind of voxel looks. `M` is the model by which a solid cube is
/// coloured.
pub enum AppearanceAttribute<M> {
    /// A regular solid block.
    SolidColorCube(M),
    /// Completely transparent (air).
    Transparent,
}

/// How many vertices the triangles of one cube have.
pub const CUBE_VERTEX_COUNT: usize = 36;

/// The corners of the unit cube that the vertices of a cube's triangles lie
/// on, two triangles for each of the six sides. The cube's origin is its
/// negative corner.
pub const CUBE_VERTICES: [[u8; 3]; 36] = [
    [0, 0, 0], [1, 0, 0], [1, 0, 1],
    [0, 0, 0], [1, 0, 1], [0, 0, 1],
    [0, 1, 0], [0, 1, 1], [1, 1, 1],
    [0, 1, 0], [1, 1, 1], [1, 1, 0],
    [0, 0, 0], [1, 0, 0], [1, 1, 0],
    [0, 0, 0], [1, 1, 0], [0, 1, 0],
    [0, 0, 1], [1, 1, 0], [1, 0, 0],
    [0, 0, 1], [0, 1, 1], [1, 1, 1],
    [0, 0, 1], [0, 0, 0], [0, 1, 0],
    [0, 0, 1], [0, 1, 0], [0, 1, 1],
    [1, 0, 0], [1, 0, 1], [1, 1, 1],
    [1, 0, 0], [1, 1, 1], [1, 1, 0],
];

/// One vertex of a chunk's mesh: where it lies, in voxel widths from the
/// chunk's origin, and the model of the voxel it belongs to.
#[derive(Debug)]
pub struct MeshVertex<'a, M> {
    pub position: (u32, u32, u32),
    pub model: &'a M,
}

/// The position of the voxel that is visited as the `cell`-th of a chunk:
/// the walk goes along `z` first, then `y`, then `x`.
pub open spec fn cell_position(cell: int) -> (int, int, int) {
    (
        cell / (CHUNK_SIZE_Y * CHUNK_SIZE_Z),
        (cell / (CHUNK_SIZE_Z as int)) % (CHUNK_SIZE_Y as int),
        cell % (CHUNK_SIZE_Z as int),
    )
}

/// The `vertex`-th vertex of the cube at a position.
pub open spec fn cube_vertex<'a, M>(position: (int, int, int), model: &'a M, vertex: int) -> MeshVertex<
    'a,
    M,
> {
    MeshVertex {
        position: (
            (position.0 + CUBE_VERTICES[vertex][0]) as u32,
            (position.1 + CUBE_VERTICES[vertex][1]) as u32,
            (position.2 + CUBE_VERTICES[vertex][2]) as u32,
        ),
        model,
    }
}

/// What the voxel visited as the `cell`-th adds to the mesh: the vertices of
/// its cube if it is solid, nothing if it is transparent.
pub open spec fn cell_mesh<'a, M>(
    voxels: Seq<Voxel>,
    looks: Map<u16, AppearanceAttribute<M>>,
    cell: int,
) -> Seq<MeshVertex<'a, M>> {
    let position = cell_position(cell);
    let voxel = voxels[voxel_index(position.0, position.1, position.2)];
    match looks[voxel.id] {
        AppearanceAttribute::SolidColorCube(model) => Seq::new(
            CUBE_VERTEX_COUNT as nat,
            |vertex: int| cube_vertex(position, &model, vertex),
        ),
        AppearanceAttribute::Transparent => Seq::empty(),
    }
}

/// The mesh of the first `cells` voxels of the walk.
pub open spec fn mesh_prefix<'a, M>(
    voxels: Seq<Voxel>,
    looks: Map<u16, AppearanceAttribute<M>>,
    cells: nat,
) -> Seq<MeshVertex<'a, M>>
    decreases cells,
{
    if cells == 0 {
        Seq::empty()
    } else {
        mesh_prefix(voxels, looks, (cells - 1) as nat) + cell_mesh(voxels, looks, cells - 1)
    }
}

/// The mesh of a whole chunk.
pub open spec fn chunk_mesh<'a, M>(
    voxels: Seq<Voxel>,
    looks: Map<u16, AppearanceAttribute<M>>,
) -> Seq<MeshVertex<'a, M>> {
    mesh_prefix(voxels, looks, chunk_volume() as nat)
}

/// Whether the looks of every voxel of the chunk are known.
pub open spec fn all_looks_known<M>(
    voxels: Seq<Voxel>,
    looks: Map<u16, AppearanceAttribute<M>>,
) -> bool {
    forall|i: int| 0 <= i < chunk_volume() ==> looks.contains_key((#[trigger] voxels[i]).id)
}

/// Finds out whether the looks of every voxel of the chunk are registered.
pub fn knows_all_looks<M: Attribute>(
    array: &VoxelArray,
    appearance_registry: &AttributeRegistry<AppearanceAttribute<M>>,
) -> (known: bool)
    ensures
        known == all_looks_known(array@, appearance_registry@.attributes),
{
    proof {
        lemma_chunk_volume();
    }
    let volume: usize = CHUNK_SIZE_X * CHUNK_SIZE_Y * CHUNK_SIZE_Z;
    let mut i: usize = 0;
    while i < volume
        invariant
            i <= volume,
            volume == chunk_volume(),
            forall|j: int|
                0 <= j < i ==> appearance_registry@.attributes.contains_key(
                    (#[trigger] array@[j]).id,
                ),
        decreases volume - i,
    {
        if appearance_registry.find(array.get_voxel_at_index(i).id).is_err() {
            return false;
        }
        i = i + 1;
    }
    true
}

/// Appends the vertices of the cube of one solid voxel to a mesh.
pub fn append_solid_color_cube_model<'a, M>(
    vec: &mut Vec<MeshVertex<'a, M>>,
    solid_model: &'a M,
    offset_x: u32,
    offset_y: u32,
    offset_z: u32,
)
    requires
        offset_x < u32::MAX,
        offset_y < u32::MAX,
        offset_z < u32::MAX,
    ensures
        final(vec)@ == old(vec)@ + Seq::new(
            CUBE_VERTEX_COUNT as nat,
            |vertex: int|
                cube_vertex(
                    (offset_x as int, offset_y as int, offset_z as int),
                    solid_model,
                    vertex,
                ),
        ),
{
    let ghost position = (offset_x as int, offset_y as int, offset_z as int);
    let ghost cube = Seq::new(
        CUBE_VERTEX_COUNT as nat,
        |vertex: int| cube_vertex(position, solid_model, vertex),
    );
    let mut vertex: usize = 0;
    while vertex < CUBE_VERTEX_COUNT
        invariant
            vertex <= CUBE_VERTEX_COUNT,
            offset_x < u32::MAX,
            offset_y < u32::MAX,
            offset_z < u32::MAX,
            position == (offset_x as int, offset_y as int, offset_z as int),
            cube == Seq::new(
                CUBE_VERTEX_COUNT as nat,
                |vertex: int| cube_vertex(position, solid_model, vertex),
            ),
            vec@ == old(vec)@ + cube.take(vertex as int),
        decreases CUBE_VERTEX_COUNT - vertex,
    {
        let corner = CUBE_VERTICES[vertex];
        assert(corner[0] <= 1 && corner[1] <= 1 && corner[2] <= 1);
        vec.push(
            MeshVertex {
                position: (
                    offset_x + corner[0] as u32,
                    offset_y + corner[1] as u32,
                    offset_z + corner[2] as u32,
                ),
                model: solid_model,
            },
        );
        assert(cube.take(vertex + 1) == cube.take(vertex as int).push(cube[vertex as int]));
        vertex = vertex + 1;
    }
    assert(cube.take(CUBE_VERTEX_COUNT as int) == cube);
}

/// Builds the mesh of a chunk from its voxels and from what is registered of
/// their looks.
pub fn generate_mesh<'a, M: Attribute>(
    array: &VoxelArray,
    appearance_registry: &'a AttributeRegistry<AppearanceAttribute<M>>,
) -> (mesh: Vec<MeshVertex<'a, M>>)
    requires
        all_looks_known(array@, appearance_registry@.attributes),
    ensures
        mesh@ == chunk_mesh(array@, appearance_registry@.attributes),
{
    let ghost voxels = array@;
    let ghost looks = appearance_registry@.attributes;
    let mut mesh: Vec<MeshVertex<'a, M>> = Vec::new();
    proof {
        lemma_chunk_volume();
    }
    let mut x: usize = 0;
    while x < CHUNK_SIZE_X
        invariant
            x <= CHUNK_SIZE_X,
            voxels == array@,
            looks == appearance_registry@.attributes,
            all_looks_known(voxels, looks),
            mesh@ == mesh_prefix(voxels, looks, (x * 256) as nat),
        decreases CHUNK_SIZE_X - x,
    {
        let mut y: usize = 0;
        while y < CHUNK_SIZE_Y
            invariant
                x < CHUNK_SIZE_X,
                y <= CHUNK_SIZE_Y,
                voxels == array@,
                looks == appearance_registry@.attributes,
                all_looks_known(voxels, looks),
                mesh@ == mesh_prefix(voxels, looks, (x * 256 + y * 16) as nat),
            decreases CHUNK_SIZE_Y - y,
        {
            let mut z: usize = 0;
            while z < CHUNK_SIZE_Z
                invariant
                    x < CHUNK_SIZE_X,
                    y < CHUNK_SIZE_Y,
                    z <= CHUNK_SIZE_Z,
                    voxels == array@,
                    looks == appearance_registry@.attributes,
                    all_looks_known(voxels, looks),
                    mesh@ == mesh_prefix(voxels, looks, (x * 256 + y * 16 + z) as nat),
                decreases CHUNK_SIZE_Z - z,
            {
                let ghost cell = x * 256 + y * 16 + z;
                proof {
                    lemma_chunk_volume();
                    assert(cell_position(cell) == (x as int, y as int, z as int));
                }
                let voxel = array.get_voxel_at_position(x, y, z);
                match appearance_registry.find(voxel.id) {
                    Ok(AppearanceAttribute::SolidColorCube(solid_color_cube_model)) => {
                        append_solid_color_cube_model(
                            &mut mesh,
                            solid_color_cube_model,
                            x as u32,
                            y as u32,
                            z as u32,
                        );
                    },
                    Ok(AppearanceAttribute::Transparent) => {},
                    Err(_) => {},
                }
                assert(mesh@ == mesh_prefix(voxels, looks, (cell + 1) as nat));
                z = z + 1;
            }
            y = y + 1;
        }
        x = x + 1;
    }
    mesh
}

} // verus!
