use vstd::prelude::*;

use crate::assets::{adds_mesh, MeshAssets, MeshHandle};
use crate::geometry::{Geometry, Point2, Point3, Quat, SCALAR_ONE, SCALAR_ZERO};
use crate::mesh::{is_mesh_of, Mesh};

verus! {

/// A handle to a colour material owned by the engine. The store that
/// issues it is outside this crate; the handle is carried through
/// unchanged.
#[derive(Clone, Copy, Debug, PartialEq, Eq, Structural)]
pub struct MaterialHandle {
    pub id: u64,
}

/// A sprite descriptor: only its size matters here.
#[derive(Clone, Copy, Debug, PartialEq, Eq, Structural)]
pub struct Sprite {
    pub size: Point2,
}

/// A spatial transform: translation, rotation and scale, as binary32 bit
/// patterns.
#[derive(Clone, Copy, Debug, PartialEq, Eq, Structural)]
pub struct Transform {
    pub translation: Point3,
    pub rotation: Quat,
    pub scale: Point3,
}

/// The identity rotation: zero vector part, unit real part.
pub open spec fn identity_rotation() -> Quat {
    Quat { x: SCALAR_ZERO, y: SCALAR_ZERO, z: SCALAR_ZERO, w: SCALAR_ONE }
}

/// The unit scale: one in every component.
pub open spec fn unit_scale() -> Point3 {
    Point3 { x: SCALAR_ONE, y: SCALAR_ONE, z: SCALAR_ONE }
}

/// The unit sprite size: one by one.
pub open spec fn unit_size() -> Point2 {
    Point2 { x: SCALAR_ONE, y: SCALAR_ONE }
}

impl Transform {
    /// A transform at the given translation, with identity rotation and
    /// unit scale.
    pub fn from_translation(translation: Point3) -> (t: Transform)
        ensures
            t.translation == translation,
            t.rotation == identity_rotation(),
            t.scale == unit_scale(),
    {
        Transform {
            translation,
            rotation: Quat { x: SCALAR_ZERO, y: SCALAR_ZERO, z: SCALAR_ZERO, w: SCALAR_ONE },
            scale: Point3 { x: SCALAR_ONE, y: SCALAR_ONE, z: SCALAR_ONE },
        }
    }
}

/// A renderable sprite bundle: a material, a handle to the registered
/// mesh, a unit-sized sprite descriptor, and a transform at the requested
/// translation.
#[derive(Clone, Copy, Debug, PartialEq, Eq, Structural)]
pub struct SpriteComponents {
    pub material: MaterialHandle,
    pub mesh: MeshHandle,
    pub sprite: Sprite,
    pub transform: Transform,
}

/// The stroke tessellator failed (malformed path or invalid options).
#[derive(Clone, Copy, Debug, PartialEq, Eq, Structural)]
pub struct TessellationError;

/// The bundle `s` is the one owed for the buffer `(vertices, indices)`
/// and the translation: the store gained exactly one mesh, derived from
/// the buffer; `s` addresses that mesh, carries the material through, has
/// a unit sprite size, and sits at the translation with identity rotation
/// and unit scale.
pub open spec fn sprite_for(
    pre: MeshAssets,
    post: MeshAssets,
    material: MaterialHandle,
    vertices: Seq<Point3>,
    indices: Seq<u32>,
    translation: Point3,
    s: SpriteComponents,
) -> bool {
    &&& post.meshes@.len() == pre.meshes@.len() + 1
    &&& (forall|i: int| 0 <= i < pre.meshes@.len() ==> post.meshes@[i] == pre.meshes@[i])
    &&& is_mesh_of(post.meshes@.last(), vertices, indices)
    &&& s.mesh.id == pre.meshes@.len()
    &&& s.material == material
    &&& s.sprite.size == unit_size()
    &&& s.transform.translation == translation
    &&& s.transform.rotation == identity_rotation()
    &&& s.transform.scale == unit_scale()
}

/// Derives a mesh from the buffer, registers it with the store, and
/// returns the sprite bundle for it. Every call registers a fresh mesh
/// entry, identical geometry or not.
pub fn create_sprite(
    material: MaterialHandle,
    meshes: &mut MeshAssets,
    geometry: Geometry,
    translation: Point3,
) -> (s: SpriteComponents)
    ensures
        sprite_for(
            *old(meshes),
            *final(meshes),
            material,
            geometry.vertices@,
            geometry.indices@,
            translation,
            s,
        ),
        adds_mesh(*old(meshes), *final(meshes), final(meshes).meshes@.last(), s.mesh),
{
    let mesh = Mesh::from_geometry(geometry);
    let handle = meshes.add(mesh);
    SpriteComponents {
        material,
        mesh: handle,
        sprite: Sprite { size: Point2 { x: SCALAR_ONE, y: SCALAR_ONE } },
        transform: Transform::from_translation(translation),
    }
}

/// Two bundles produced one after the other against the same store carry
/// distinct mesh handles, even for identical buffers, materials and
/// translations: every call registers a fresh mesh entry.
pub proof fn lemma_bundles_get_distinct_handles(
    pre: MeshAssets,
    mid: MeshAssets,
    post: MeshAssets,
    material1: MaterialHandle,
    material2: MaterialHandle,
    vertices1: Seq<Point3>,
    vertices2: Seq<Point3>,
    indices1: Seq<u32>,
    indices2: Seq<u32>,
    translation1: Point3,
    translation2: Point3,
    s1: SpriteComponents,
    s2: SpriteComponents,
)
    requires
        sprite_for(pre, mid, material1, vertices1, indices1, translation1, s1),
        sprite_for(mid, post, material2, vertices2, indices2, translation2, s2),
    ensures
        s1.mesh != s2.mesh,
{
    assert(mid.meshes@.len() == pre.meshes@.len() + 1);
}

/// Takes the outcome of the outside stroke tessellation and, on success,
/// registers the derived mesh and returns its sprite bundle; a
/// tessellation failure is passed through to the caller untouched, with
/// the store left exactly as it was.
pub fn stroke(
    tessellation: Result<Geometry, TessellationError>,
    material: MaterialHandle,
    meshes: &mut MeshAssets,
    translation: Point3,
) -> (r: Result<SpriteComponents, TessellationError>)
    ensures
        r is Ok <==> tessellation is Ok,
        tessellation is Ok ==> sprite_for(
            *old(meshes),
            *final(meshes),
            material,
            tessellation->Ok_0.vertices@,
            tessellation->Ok_0.indices@,
            translation,
            r->Ok_0,
        ),
        tessellation is Err ==> *final(meshes) == *old(meshes) && r->Err_0 == tessellation->Err_0,
{
    match tessellation {
        Ok(geometry) => Ok(create_sprite(material, meshes, geometry, translation)),
        Err(e) => Err(e),
    }
}

} // verus!
