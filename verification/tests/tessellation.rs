use ellipsoid_mesh::builder::EllipsoidMeshBuilder;
use ellipsoid_mesh::grid::GridSample;
use ellipsoid_mesh::mesh::{tessellate, MeshLayout, TessellationError};
use ellipsoid_mesh::options::{EllipsoidOptions, DEFAULT_SECTORS, DEFAULT_STACKS};
use ellipsoid_mesh::shape::EllipsoidShape;

fn shape(a: f32, b: f32, c: f32) -> EllipsoidShape {
    EllipsoidShape::from_bits(a.to_bits(), b.to_bits(), c.to_bits())
}

fn layout(sectors: usize, stacks: usize) -> MeshLayout {
    tessellate(shape(1.0, 1.0, 1.0), EllipsoidOptions::new(sectors, stacks)).unwrap()
}

#[test]
fn unit_sphere_four_sectors_two_stacks() {
    let mesh = layout(4, 2);
    assert_eq!(mesh.vertex_count(), 15);
    assert_eq!(mesh.samples().len(), 15);
    assert_eq!(mesh.indices().len(), 24);
    assert_eq!(
        mesh.indices(),
        &vec![
            1, 5, 6, 2, 6, 7, 3, 7, 8, 4, 8, 9, // north polar band
            5, 10, 6, 6, 11, 7, 7, 12, 8, 8, 13, 9, // south polar band
        ]
    );
}

#[test]
fn zero_axis_is_an_invalid_shape() {
    let r = tessellate(shape(0.0, 1.0, 1.0), EllipsoidOptions::new(4, 2));
    assert_eq!(r.unwrap_err(), TessellationError::InvalidShape);
    let r = tessellate(shape(1.0, 0.0, 1.0), EllipsoidOptions::new(4, 2));
    assert_eq!(r.unwrap_err(), TessellationError::InvalidShape);
    let r = tessellate(shape(1.0, 1.0, 0.0), EllipsoidOptions::new(4, 2));
    assert_eq!(r.unwrap_err(), TessellationError::InvalidShape);
}

#[test]
fn negative_axis_is_an_invalid_shape() {
    let r = tessellate(shape(2.0, -1.0, 0.5), EllipsoidOptions::new(8, 4));
    assert_eq!(r.unwrap_err(), TessellationError::InvalidShape);
}

#[test]
fn zero_stacks_is_an_invalid_resolution() {
    let r = tessellate(shape(1.0, 1.0, 1.0), EllipsoidOptions::new(5, 0));
    assert_eq!(r.unwrap_err(), TessellationError::InvalidResolution);
}

#[test]
fn zero_sectors_is_an_invalid_resolution() {
    let r = tessellate(shape(1.0, 1.0, 1.0), EllipsoidOptions::new(0, 5));
    assert_eq!(r.unwrap_err(), TessellationError::InvalidResolution);
    let r = tessellate(shape(1.0, 1.0, 1.0), EllipsoidOptions::new(0, 0));
    assert_eq!(r.unwrap_err(), TessellationError::InvalidResolution);
}

#[test]
fn shape_is_examined_before_resolution() {
    let r = tessellate(shape(0.0, 1.0, 1.0), EllipsoidOptions::new(5, 0));
    assert_eq!(r.unwrap_err(), TessellationError::InvalidShape);
}

#[test]
fn layout_does_not_depend_on_the_axes() {
    let round = tessellate(shape(1.0, 1.0, 1.0), EllipsoidOptions::new(6, 5)).unwrap();
    let flat = tessellate(shape(2.0, 1.0, 0.5), EllipsoidOptions::new(6, 5)).unwrap();
    assert_eq!(round.samples(), flat.samples());
    assert_eq!(round.indices(), flat.indices());
}

#[test]
fn layout_reports_its_resolution() {
    let mesh = layout(7, 3);
    assert_eq!(mesh.resolution(), EllipsoidOptions::new(7, 3));
    assert_eq!(mesh.resolution().sectors, 7);
    assert_eq!(mesh.resolution().stacks, 3);
    assert_eq!(mesh.vertex_count(), 4 * 8);
}

#[test]
fn samples_come_row_by_row() {
    let mesh = layout(2, 1);
    let expected = vec![
        GridSample { stack: 0, sector: 0 },
        GridSample { stack: 0, sector: 1 },
        GridSample { stack: 0, sector: 2 },
        GridSample { stack: 1, sector: 0 },
        GridSample { stack: 1, sector: 1 },
        GridSample { stack: 1, sector: 2 },
    ];
    assert_eq!(mesh.samples(), &expected);
}

#[test]
fn sample_at_each_position_has_the_coordinates_of_that_position() {
    for (sectors, stacks) in [(1, 1), (3, 2), (4, 7), (9, 5)] {
        let mesh = layout(sectors, stacks);
        assert_eq!(mesh.samples().len(), (stacks + 1) * (sectors + 1));
        for (k, sample) in mesh.samples().iter().enumerate() {
            assert_eq!(sample.stack, k / (sectors + 1));
            assert_eq!(sample.sector, k % (sectors + 1));
            assert_eq!(sample.stack * (sectors + 1) + sample.sector, k);
        }
    }
}

#[test]
fn seam_column_is_duplicated() {
    let (sectors, stacks) = (5usize, 3usize);
    let mesh = layout(sectors, stacks);
    let samples = mesh.samples();
    for i in 0..=stacks {
        let first = samples[i * (sectors + 1)];
        let last = samples[i * (sectors + 1) + sectors];
        assert_eq!(first, GridSample { stack: i, sector: 0 });
        assert_eq!(last, GridSample { stack: i, sector: sectors });
        let u_first = first.sector as f32 / sectors as f32;
        let u_last = last.sector as f32 / sectors as f32;
        let v_first = first.stack as f32 / stacks as f32;
        let v_last = last.stack as f32 / stacks as f32;
        assert_eq!(u_first, 0.0);
        assert_eq!(u_last, 1.0);
        assert_eq!(v_first, v_last);
    }
}

#[test]
fn builder_starts_with_the_default_resolution() {
    let builder = EllipsoidMeshBuilder::new(1.0f32.to_bits(), 2.0f32.to_bits(), 3.0f32.to_bits());
    assert_eq!(builder.ellipsoid, shape(1.0, 2.0, 3.0));
    assert_eq!(builder.options.sectors, 32);
    assert_eq!(builder.options.stacks, 16);
    assert_eq!(builder.options, EllipsoidOptions::default());
    assert_eq!(DEFAULT_SECTORS, 32);
    assert_eq!(DEFAULT_STACKS, 16);
}

#[test]
fn build_uses_the_resolution_of_the_builder() {
    let builder = EllipsoidMeshBuilder::new(1.0f32.to_bits(), 2.0f32.to_bits(), 3.0f32.to_bits());
    let mesh = builder.build().unwrap();
    assert_eq!(mesh.resolution(), EllipsoidOptions::new(32, 16));
    assert_eq!(mesh.vertex_count(), 17 * 33);
    assert_eq!(mesh.indices().len(), 3 * (2 * 14 + 2) * 32);

    let mut coarse = builder;
    coarse.options = EllipsoidOptions::new(3, 2);
    let mesh = coarse.build().unwrap();
    assert_eq!(mesh.vertex_count(), 12);
    assert_eq!(mesh.indices().len(), 18);
}

#[test]
fn uv_uses_the_resolution_it_is_given() {
    let builder = EllipsoidMeshBuilder::new(1.0f32.to_bits(), 1.0f32.to_bits(), 1.0f32.to_bits());
    let mesh = builder.uv(4, 2).unwrap();
    assert_eq!(mesh.vertex_count(), 15);
    assert_eq!(mesh.indices().len(), 24);
    assert_eq!(builder.uv(5, 0).unwrap_err(), TessellationError::InvalidResolution);
    let broken = EllipsoidMeshBuilder::new(0.0f32.to_bits(), 1.0f32.to_bits(), 1.0f32.to_bits());
    assert_eq!(broken.uv(4, 2).unwrap_err(), TessellationError::InvalidShape);
    assert_eq!(broken.build().unwrap_err(), TessellationError::InvalidShape);
}

#[test]
fn shape_hands_out_a_builder_of_itself() {
    let ellipsoid = shape(2.0, 1.0, 0.5);
    let builder = ellipsoid.mesh();
    assert_eq!(builder.ellipsoid, ellipsoid);
    assert_eq!(builder.options, EllipsoidOptions::new(32, 16));
    assert_eq!(builder.build().unwrap().vertex_count(), 561);
}
