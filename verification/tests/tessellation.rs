use lyon::math::point;
use lyon::path::Path;
use lyon::tessellation::{
    BuffersBuilder, StrokeOptions, StrokeTessellator, StrokeVertex, VertexBuffers,
};
use lyon_utils::assets::MeshAssets;
use lyon_utils::geometry::{project_vertex, Geometry, Point3};
use lyon_utils::sprite::{stroke, MaterialHandle};

fn tessellate(
    path: &Path,
    options: &StrokeOptions,
) -> Result<Geometry, lyon::tessellation::TessellationError> {
    let mut buffers: VertexBuffers<Point3, u32> = VertexBuffers::new();
    let mut tessellator = StrokeTessellator::new();
    tessellator.tessellate_path(
        path.as_slice(),
        options,
        &mut BuffersBuilder::new(&mut buffers, |v: StrokeVertex| {
            project_vertex(v.position().x.to_bits(), v.position().y.to_bits())
        }),
    )?;
    Ok(Geometry {
        vertices: buffers.vertices,
        indices: buffers.indices,
    })
}

#[test]
fn empty_path_tessellates_to_empty_buffers() {
    let path = Path::builder().build();
    let g = tessellate(&path, &StrokeOptions::default().with_line_width(1.0))
        .expect("stroking a path with no segments succeeds");
    assert!(g.vertices.is_empty());
    assert!(g.indices.is_empty());
}

#[test]
fn straight_line_stroke_is_a_flat_triangle_list() {
    let mut builder = Path::builder();
    builder.begin(point(0.0, 0.0));
    builder.line_to(point(10.0, 0.0));
    builder.end(false);
    let path = builder.build();
    let g = tessellate(&path, &StrokeOptions::default().with_line_width(1.0))
        .expect("stroking a straight line succeeds");
    assert!(!g.vertices.is_empty());
    for v in &g.vertices {
        assert_eq!(f32::from_bits(v.z), 0.0);
    }
    assert_eq!(g.indices.len() % 3, 0);
}

#[test]
fn stroke_registers_the_derived_mesh() {
    let mut builder = Path::builder();
    builder.begin(point(0.0, 0.0));
    builder.line_to(point(10.0, 0.0));
    builder.end(false);
    let path = builder.build();
    let tessellation = tessellate(&path, &StrokeOptions::default().with_line_width(1.0))
        .map_err(|_| lyon_utils::sprite::TessellationError);
    let n = tessellation.as_ref().map(|g| g.vertices.len()).unwrap_or(0);

    let mut assets = MeshAssets::new();
    let t = Point3 {
        x: 0.0_f32.to_bits(),
        y: 0.0_f32.to_bits(),
        z: 0.0_f32.to_bits(),
    };
    let s = stroke(tessellation, MaterialHandle { id: 3 }, &mut assets, t)
        .expect("a tessellated buffer yields a bundle");
    let m = &assets.meshes[s.mesh.id];
    assert_eq!(m.positions.len(), n);
    assert_eq!(m.normals.len(), n);
    assert_eq!(m.uvs.len(), n);
    assert_eq!(m.indices.len() % 3, 0);
    for p in &m.positions {
        assert_eq!(f32::from_bits(p.z), 0.0);
    }
}
