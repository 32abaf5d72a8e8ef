//! The palette of transforms that a frame hands to the GPU.
//!
//! A transform is registered once and is from then on known by its id: the
//! place of its data in the palette, with the kind of the transform in the
//! bits above it. The matrices themselves are carried as the bit patterns
//! of their sixteen entries; computing with them is the caller's work.

use std::collections::HashMap;
use vstd::prelude::*;

verus! {

broadcast use vstd::std_specs::hash::group_hash_axioms;

/// The bit of an id from which the kind of the transform is stored.
pub const KIND_SHIFT: u32 = 23;

/// The bits of an id that hold the place in the palette.
pub const INDEX_MASK: u32 = 0x7FFFFF;

/// One more than the greatest place that an id can hold.
pub const INDEX_LIMIT: u32 = 0x800000;

/// The bit pattern of the float `1.0`.
pub const ONE_BITS: u32 = 0x3F800000;

/// Whether a transform keeps rectangles aligned with the axes.
#[derive(Clone, Copy, Debug, PartialEq, Eq, Structural)]
pub enum TransformedRectKind {
    /// Rectangles stay rectangles with sides along the axes.
    AxisAligned,
    /// Anything else.
    Complex,
}

impl TransformedRectKind {
    /// The kind as a number: zero for axis aligned, one for complex.
    pub open spec fn bit(self) -> u32 {
        match self {
            TransformedRectKind::AxisAligned => 0,
            TransformedRectKind::Complex => 1,
        }
    }

    /// The kind as a number: zero for axis aligned, one for complex.
    pub fn as_u32(self) -> (r: u32)
        ensures
            r == self.bit(),
    {
        match self {
            TransformedRectKind::AxisAligned => 0,
            TransformedRectKind::Complex => 1,
        }
    }
}

/// The node of the spatial tree with this index.
#[derive(Clone, Copy, Debug, PartialEq, Eq, Structural)]
pub struct SpatialNodeIndex(pub u32);

/// What shaders are told of a palette entry: the place of the entry, and
/// above it whether the transform is axis aligned, in which case pixel
/// snapping applies.
#[derive(Clone, Copy, Debug, PartialEq, Eq, Structural)]
pub struct GpuTransformId(pub u32);

impl GpuTransformId {
    /// The id of the entry at `index` with a transform of kind `kind`.
    pub open spec fn pack(index: u32, kind: TransformedRectKind) -> GpuTransformId {
        GpuTransformId(index | (kind.bit() << KIND_SHIFT))
    }

    /// The place of the entry in the palette.
    pub open spec fn index(self) -> u32 {
        self.0 & INDEX_MASK
    }

    /// The kind stored in the id: axis aligned exactly when no bit above
    /// the place is set.
    pub open spec fn kind(self) -> TransformedRectKind {
        if self.0 < INDEX_LIMIT {
            TransformedRectKind::AxisAligned
        } else {
            TransformedRectKind::Complex
        }
    }

    /// The id of the identity transform, the first entry of every palette.
    pub fn identity() -> (r: GpuTransformId)
        ensures
            r == GpuTransformId(0),
            r == GpuTransformId::pack(0, TransformedRectKind::AxisAligned),
    {
        assert(0u32 | (0u32 << 23u32) == 0u32) by (bit_vector);
        GpuTransformId(0)
    }

    /// Extracts the kind of the transform from the id.
    pub fn transform_kind(&self) -> (r: TransformedRectKind)
        ensures
            r == self.kind(),
    {
        let bits: u32 = self.0;
        assert((bits >> 23u32 == 0u32) <==> bits < 0x800000u32) by (bit_vector);
        if (self.0 >> KIND_SHIFT) == 0 {
            TransformedRectKind::AxisAligned
        } else {
            TransformedRectKind::Complex
        }
    }

    /// The id of the same entry with `kind` as the kind of the transform.
    /// This serves where shaders should not take a transform for axis
    /// aligned, a perspective warp for one, although it is in general.
    pub fn override_transform_kind(&self, kind: TransformedRectKind) -> (r: GpuTransformId)
        ensures
            r == GpuTransformId::pack(self.index(), kind),
            r.index() == self.index(),
            r.kind() == kind,
    {
        let bits: u32 = self.0;
        let k: u32 = kind.as_u32();
        assert(k == 0 || k == 1);
        assert(k == 0u32 || k == 1u32 ==> (((bits & 0x7FFFFFu32) | (k << 23u32)) & 0x7FFFFFu32
            == bits & 0x7FFFFFu32 && ((((bits & 0x7FFFFFu32) | (k << 23u32)) < 0x800000u32) <==> k
            == 0u32))) by (bit_vector);
        GpuTransformId((self.0 & INDEX_MASK) | (k << KIND_SHIFT))
    }
}

/// An id made of a place below the limit and a kind gives both back.
pub proof fn lemma_pack_unpack(index: u32, kind: TransformedRectKind)
    requires
        index < INDEX_LIMIT,
    ensures
        GpuTransformId::pack(index, kind).index() == index,
        GpuTransformId::pack(index, kind).kind() == kind,
{
    let k = kind.bit();
    assert(index < 0x800000u32 && (k == 0u32 || k == 1u32) ==> ((index | (k << 23u32))
        & 0x7FFFFFu32 == index && (((index | (k << 23u32)) < 0x800000u32) <==> k == 0u32)))
        by (bit_vector);
}

/// The bit patterns of the identity matrix, row by row: ones on the
/// diagonal.
pub open spec fn identity_bits() -> Seq<u32> {
    Seq::new(
        16,
        |i: int|
            if i % 5 == 0 {
                ONE_BITS
            } else {
                0u32
            },
    )
}

/// What the GPU gets for a palette entry: a transform and its inverse, each
/// as the bit patterns of its sixteen entries.
#[derive(Clone, Copy, Debug, PartialEq, Eq)]
pub struct TransformData {
    pub transform: [u32; 16],
    pub inv_transform: [u32; 16],
}

impl TransformData {
    /// The data of the entry that stands for no transform: the identity,
    /// which is its own inverse.
    pub fn invalid() -> (r: TransformData)
        ensures
            r.transform@ == identity_bits(),
            r.inv_transform@ == identity_bits(),
    {
        let identity: [u32; 16] = [
            ONE_BITS,
            0,
            0,
            0,
            0,
            ONE_BITS,
            0,
            0,
            0,
            0,
            ONE_BITS,
            0,
            0,
            0,
            0,
            ONE_BITS,
        ];
        assert(identity@ =~= identity_bits());
        TransformData { transform: identity, inv_transform: identity }
    }
}

/// What the palette keeps of an entry beside its data.
#[derive(Clone, Copy, Debug, PartialEq, Eq)]
pub struct TransformMetadata {
    pub transform_kind: TransformedRectKind,
}

impl TransformMetadata {
    /// The metadata of the entry that stands for no transform.
    pub fn invalid() -> (r: TransformMetadata)
        ensures
            r.transform_kind == TransformedRectKind::AxisAligned,
    {
        TransformMetadata { transform_kind: TransformedRectKind::AxisAligned }
    }
}

/// A transform as the palette takes it: the data for the GPU, and the kind
/// of the transform.
#[derive(Clone, Copy, Debug, PartialEq, Eq)]
pub struct GpuTransform {
    pub data: TransformData,
    pub kind: TransformedRectKind,
}

/// The key under which the transform from one node to another is kept.
pub open spec fn relative_key(from_index: SpatialNodeIndex, to_index: SpatialNodeIndex) -> u64 {
    (from_index.0 as u64 * 0x1_0000_0000 + to_index.0 as u64) as u64
}

/// Different pairs of nodes have different keys.
pub proof fn lemma_relative_key_injective(
    a: SpatialNodeIndex,
    b: SpatialNodeIndex,
    c: SpatialNodeIndex,
    d: SpatialNodeIndex,
)
    ensures
        relative_key(a, b) == relative_key(c, d) <==> a == c && b == d,
{
}

/// Adds a transform to the palette: its metadata to `metadatas`, its data
/// to `transforms`. Returns the place of the two.
pub fn register_gpu_transform(
    metadatas: &mut Vec<TransformMetadata>,
    transforms: &mut Vec<TransformData>,
    transform: GpuTransform,
) -> (index: usize)
    ensures
        index == old(transforms)@.len(),
        final(transforms)@ == old(transforms)@.push(transform.data),
        final(metadatas)@ == old(metadatas)@.push(
            TransformMetadata { transform_kind: transform.kind },
        ),
{
    let metadata = TransformMetadata { transform_kind: transform.kind };
    let index = transforms.len();
    metadatas.push(metadata);
    transforms.push(transform.data);
    index
}

/// The transforms of a frame, ready for the GPU, and the place at which the
/// transform between two nodes was registered.
pub struct GpuTransforms {
    transforms: Vec<TransformData>,
    metadata: Vec<TransformMetadata>,
    map: HashMap<u64, usize>,
}

impl GpuTransforms {
    /// The data of the entries, in the order of their places.
    pub closed spec fn data(&self) -> Seq<TransformData> {
        self.transforms@
    }

    /// The kinds of the entries, in the order of their places.
    pub closed spec fn kinds(&self) -> Seq<TransformedRectKind> {
        self.metadata@.map_values(|m: TransformMetadata| m.transform_kind)
    }

    /// The places of the relative transforms registered so far, by key.
    pub closed spec fn places(&self) -> Map<u64, usize> {
        self.map@
    }

    /// A palette is valid when every entry has data and a kind, the first
    /// entry is the identity, and every registered place is that of an
    /// entry after the first.
    pub closed spec fn wf(&self) -> bool {
        &&& self.transforms@.len() == self.metadata@.len()
        &&& self.transforms@.len() >= 1
        &&& self.transforms@[0].transform@ == identity_bits()
        &&& self.transforms@[0].inv_transform@ == identity_bits()
        &&& self.metadata@[0].transform_kind == TransformedRectKind::AxisAligned
        &&& forall|key: u64| #[trigger]
            self.map@.contains_key(key) ==> 1 <= self.map@[key] < self.transforms@.len()
    }

    /// In a valid palette the entries are as many as their kinds, the first
    /// is the identity, and the registered places are places of entries.
    pub proof fn lemma_wf(&self)
        requires
            self.wf(),
        ensures
            self.data().len() == self.kinds().len(),
            self.data().len() >= 1,
            self.data()[0].transform@ == identity_bits(),
            self.data()[0].inv_transform@ == identity_bits(),
            self.kinds()[0] == TransformedRectKind::AxisAligned,
            forall|key: u64| #[trigger]
                self.places().contains_key(key) ==> 1 <= self.places()[key] < self.data().len(),
    {
    }

    /// A palette with room for `count` entries, which holds the identity as
    /// its first entry.
    pub fn new(count: usize) -> (r: GpuTransforms)
        ensures
            r.wf(),
            r.data().len() == 1,
            r.data()[0].transform@ == identity_bits(),
            r.data()[0].inv_transform@ == identity_bits(),
            r.kinds() == seq![TransformedRectKind::AxisAligned],
            r.places() == Map::<u64, usize>::empty(),
    {
        let mut transforms = Vec::with_capacity(count);
        let mut metadata = Vec::with_capacity(count);
        transforms.push(TransformData::invalid());
        metadata.push(TransformMetadata::invalid());
        let r = GpuTransforms { transforms, metadata, map: HashMap::new() };
        assert(r.kinds() =~= seq![TransformedRectKind::AxisAligned]);
        r
    }

    /// The data of the entries, for the GPU.
    pub fn finish(self) -> (r: Vec<TransformData>)
        ensures
            r@ == self.data(),
    {
        self.transforms
    }

    /// The number of entries.
    pub fn len(&self) -> (r: usize)
        ensures
            r == self.data().len(),
    {
        self.transforms.len()
    }

    /// The place of the transform from `child_index` to `parent_index`.
    ///
    /// From a node to itself it is the identity, at place zero. A pair that
    /// was asked for before has the place it got then. A new pair gets the
    /// next place, and `relative`, which must be the transform between the
    /// two nodes, is stored there.
    pub fn get_index(
        &mut self,
        child_index: SpatialNodeIndex,
        parent_index: SpatialNodeIndex,
        relative: GpuTransform,
    ) -> (index: usize)
        requires
            old(self).wf(),
        ensures
            final(self).wf(),
            index < final(self).data().len(),
            child_index == parent_index ==> index == 0,
            child_index == parent_index || old(self).places().contains_key(
                relative_key(child_index, parent_index),
            ) ==> {
                &&& final(self).data() == old(self).data()
                &&& final(self).kinds() == old(self).kinds()
                &&& final(self).places() == old(self).places()
            },
            child_index != parent_index && old(self).places().contains_key(
                relative_key(child_index, parent_index),
            ) ==> index == old(self).places()[relative_key(child_index, parent_index)],
            child_index != parent_index && !old(self).places().contains_key(
                relative_key(child_index, parent_index),
            ) ==> {
                &&& index == old(self).data().len()
                &&& final(self).data() == old(self).data().push(relative.data)
                &&& final(self).kinds() == old(self).kinds().push(relative.kind)
                &&& final(self).places() == old(self).places().insert(
                    relative_key(child_index, parent_index),
                    index,
                )
            },
    {
        if child_index.0 == parent_index.0 {
            0
        } else {
            let key: u64 = child_index.0 as u64 * 0x1_0000_0000 + parent_index.0 as u64;
            match self.map.get(&key) {
                Some(index) => *index,
                None => {
                    let index = register_gpu_transform(
                        &mut self.metadata,
                        &mut self.transforms,
                        relative,
                    );
                    self.map.insert(key, index);
                    assert(self.kinds() =~= old(self).kinds().push(relative.kind));
                    index
                },
            }
        }
    }

    /// The id of the transform from `from_index` to `to_index`: its place,
    /// as [`get_index`](Self::get_index) gives it, and its kind.
    pub fn get_id(
        &mut self,
        from_index: SpatialNodeIndex,
        to_index: SpatialNodeIndex,
        relative: GpuTransform,
    ) -> (id: GpuTransformId)
        requires
            old(self).wf(),
            old(self).data().len() < INDEX_LIMIT,
        ensures
            final(self).wf(),
            id.index() < final(self).data().len(),
            id == GpuTransformId::pack(id.index(), final(self).kinds()[id.index() as int]),
            id.kind() == final(self).kinds()[id.index() as int],
            from_index == to_index ==> id == GpuTransformId(0),
            from_index == to_index || old(self).places().contains_key(
                relative_key(from_index, to_index),
            ) ==> {
                &&& final(self).data() == old(self).data()
                &&& final(self).kinds() == old(self).kinds()
                &&& final(self).places() == old(self).places()
            },
            from_index != to_index && old(self).places().contains_key(
                relative_key(from_index, to_index),
            ) ==> id.index() == old(self).places()[relative_key(from_index, to_index)],
            from_index != to_index && !old(self).places().contains_key(
                relative_key(from_index, to_index),
            ) ==> {
                &&& id.index() == old(self).data().len()
                &&& final(self).data() == old(self).data().push(relative.data)
                &&& final(self).kinds() == old(self).kinds().push(relative.kind)
                &&& final(self).places() == old(self).places().insert(
                    relative_key(from_index, to_index),
                    id.index() as usize,
                )
            },
    {
        let index = self.get_index(from_index, to_index, relative);
        let kind = self.metadata[index].transform_kind;
        proof {
            lemma_pack_unpack(index as u32, kind);
            if from_index == to_index {
                assert(0u32 | (0u32 << 23u32) == 0u32) by (bit_vector);
                assert(0u32 | (1u32 << 23u32) != 0u32) by (bit_vector);
            }
        }
        GpuTransformId((index as u32) | (kind.as_u32() << KIND_SHIFT))
    }

    /// Registers a transform that belongs to no pair of nodes, and gives
    /// its id. Each call adds an entry.
    pub fn get_custom(&mut self, transform: GpuTransform) -> (id: GpuTransformId)
        requires
            old(self).wf(),
            old(self).data().len() < INDEX_LIMIT,
        ensures
            final(self).wf(),
            id == GpuTransformId::pack(old(self).data().len() as u32, transform.kind),
            id.index() == old(self).data().len(),
            id.kind() == transform.kind,
            final(self).data() == old(self).data().push(transform.data),
            final(self).kinds() == old(self).kinds().push(transform.kind),
            final(self).places() == old(self).places(),
    {
        let index = register_gpu_transform(&mut self.metadata, &mut self.transforms, transform);
        let kind = self.metadata[index].transform_kind;
        proof {
            lemma_pack_unpack(index as u32, kind);
            assert(self.kinds() =~= old(self).kinds().push(transform.kind));
        }
        GpuTransformId((index as u32) | (kind.as_u32() << KIND_SHIFT))
    }
}

/// The palette of a frame.
pub struct TransformPalette {
    pub gpu: GpuTransforms,
}

impl TransformPalette {
    /// A palette with room for `count` transforms, which holds the identity.
    pub fn new(count: usize) -> (r: TransformPalette)
        ensures
            r.gpu.wf(),
            r.gpu.data().len() == 1,
            r.gpu.data()[0].transform@ == identity_bits(),
            r.gpu.data()[0].inv_transform@ == identity_bits(),
            r.gpu.kinds() == seq![TransformedRectKind::AxisAligned],
            r.gpu.places() == Map::<u64, usize>::empty(),
    {
        TransformPalette { gpu: GpuTransforms::new(count) }
    }

    /// The data of the transforms, for the GPU.
    pub fn finish(self) -> (r: Vec<TransformData>)
        ensures
            r@ == self.gpu.data(),
    {
        self.gpu.finish()
    }
}

} // verus!
