use browser_core::transform::{
    register_gpu_transform, GpuTransform, GpuTransformId, GpuTransforms, SpatialNodeIndex,
    TransformData, TransformMetadata, TransformPalette, TransformedRectKind,
};

const ONE: u32 = 0x3F80_0000;

fn identity() -> [u32; 16] {
    [ONE, 0, 0, 0, 0, ONE, 0, 0, 0, 0, ONE, 0, 0, 0, 0, ONE]
}

fn transform(seed: u32, kind: TransformedRectKind) -> GpuTransform {
    let mut m = identity();
    m[12] = seed;
    let mut inv = identity();
    inv[12] = seed ^ 0x8000_0000;
    GpuTransform { data: TransformData { transform: m, inv_transform: inv }, kind }
}

#[test]
fn transform_kind_of_an_id() {
    assert_eq!(GpuTransformId(0).transform_kind(), TransformedRectKind::AxisAligned);
    assert_eq!(GpuTransformId(0x7F_FFFF).transform_kind(), TransformedRectKind::AxisAligned);
    assert_eq!(GpuTransformId(0x80_0000).transform_kind(), TransformedRectKind::Complex);
    assert_eq!(GpuTransformId(0x80_0005).transform_kind(), TransformedRectKind::Complex);
    assert_eq!(GpuTransformId::identity(), GpuTransformId(0));
}

#[test]
fn override_transform_kind_keeps_the_place() {
    let id = GpuTransformId(5);
    let complex = id.override_transform_kind(TransformedRectKind::Complex);
    assert_eq!(complex, GpuTransformId(0x80_0005));
    assert_eq!(complex.transform_kind(), TransformedRectKind::Complex);
    let back = complex.override_transform_kind(TransformedRectKind::AxisAligned);
    assert_eq!(back, GpuTransformId(5));
    assert_eq!(back.transform_kind(), TransformedRectKind::AxisAligned);
    // Bits above the kind are dropped.
    assert_eq!(
        GpuTransformId(0xFF80_0001).override_transform_kind(TransformedRectKind::Complex),
        GpuTransformId(0x80_0001)
    );
}

#[test]
fn kind_as_number() {
    assert_eq!(TransformedRectKind::AxisAligned.as_u32(), 0);
    assert_eq!(TransformedRectKind::Complex.as_u32(), 1);
}

#[test]
fn invalid_entries_are_the_identity() {
    let data = TransformData::invalid();
    assert_eq!(data.transform, identity());
    assert_eq!(data.inv_transform, identity());
    assert_eq!(TransformMetadata::invalid().transform_kind, TransformedRectKind::AxisAligned);
}

#[test]
fn new_palette_holds_the_identity() {
    let palette = TransformPalette::new(8);
    assert_eq!(palette.gpu.len(), 1);
    let data = palette.finish();
    assert_eq!(data, vec![TransformData::invalid()]);
}

#[test]
fn register_appends_to_both_lists() {
    let mut metadatas = vec![TransformMetadata::invalid()];
    let mut transforms = vec![TransformData::invalid()];
    let t = transform(42, TransformedRectKind::Complex);
    let index = register_gpu_transform(&mut metadatas, &mut transforms, t);
    assert_eq!(index, 1);
    assert_eq!(transforms, vec![TransformData::invalid(), t.data]);
    assert_eq!(
        metadatas,
        vec![
            TransformMetadata::invalid(),
            TransformMetadata { transform_kind: TransformedRectKind::Complex }
        ]
    );
}

#[test]
fn get_index_registers_a_pair_once() {
    let mut gpu = GpuTransforms::new(4);
    let a = SpatialNodeIndex(1);
    let b = SpatialNodeIndex(2);
    let t = transform(1, TransformedRectKind::AxisAligned);
    let u = transform(2, TransformedRectKind::Complex);
    assert_eq!(gpu.get_index(a, a, t), 0);
    assert_eq!(gpu.len(), 1);
    assert_eq!(gpu.get_index(a, b, t), 1);
    assert_eq!(gpu.get_index(b, a, u), 2);
    // Asked again, a pair keeps its place and nothing is stored.
    assert_eq!(gpu.get_index(a, b, u), 1);
    assert_eq!(gpu.len(), 3);
    assert_eq!(gpu.finish(), vec![TransformData::invalid(), t.data, u.data]);
}

#[test]
fn get_id_packs_place_and_kind() {
    let mut gpu = GpuTransforms::new(0);
    let a = SpatialNodeIndex(10);
    let b = SpatialNodeIndex(11);
    let t = transform(1, TransformedRectKind::Complex);
    let u = transform(2, TransformedRectKind::AxisAligned);
    assert_eq!(gpu.get_id(a, a, t), GpuTransformId(0));
    assert_eq!(gpu.get_id(a, b, t), GpuTransformId(1 | (1 << 23)));
    assert_eq!(gpu.get_id(b, a, u), GpuTransformId(2));
    assert_eq!(gpu.get_id(a, b, u), GpuTransformId(1 | (1 << 23)));
    assert_eq!(gpu.get_id(a, b, u).transform_kind(), TransformedRectKind::Complex);
    // The pairs (0, 1) and (1, 0) are told apart.
    assert_eq!(gpu.get_id(SpatialNodeIndex(0), SpatialNodeIndex(1), u), GpuTransformId(3));
    assert_eq!(gpu.get_id(SpatialNodeIndex(1), SpatialNodeIndex(0), u), GpuTransformId(4));
}

#[test]
fn get_custom_always_adds_an_entry() {
    let mut gpu = GpuTransforms::new(2);
    let t = transform(7, TransformedRectKind::Complex);
    assert_eq!(gpu.get_custom(t), GpuTransformId(1 | (1 << 23)));
    assert_eq!(gpu.get_custom(t), GpuTransformId(2 | (1 << 23)));
    let u = transform(8, TransformedRectKind::AxisAligned);
    assert_eq!(gpu.get_custom(u), GpuTransformId(3));
    assert_eq!(gpu.finish(), vec![TransformData::invalid(), t.data, t.data, u.data]);
}
