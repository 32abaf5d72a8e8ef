use super::alignment::VectorSize;
use super::scalar::{Scalar, ScalarKind};
use vstd::prelude::*;

verus! {

/// The place of a type in a module's table of types.
///
/// Handles are dense and follow the dependencies: a type that contains
/// another has the greater handle.
#[derive(Clone, Copy, Debug, PartialEq, Eq, Structural)]
pub struct Handle {
    pub index: u32,
}

impl Handle {
    /// The handle of the type at `index`.
    pub fn new(index: u32) -> (r: Handle)
        ensures
            r.index == index,
    {
        Handle { index }
    }

    /// The handle as an index into a table.
    pub fn index(self) -> (r: usize)
        ensures
            r == self.index,
    {
        self.index as usize
    }
}

/// What a shader may do with a storage buffer or a storage image.
#[derive(Clone, Copy, Debug, PartialEq, Eq, Structural)]
pub struct StorageAccess {
    pub bits: u32,
}

impl StorageAccess {
    /// The storage can be read.
    pub const LOAD: u32 = 0x1;

    /// The storage can be written.
    pub const STORE: u32 = 0x2;

    /// Atomic operations can be performed on the storage.
    pub const ATOMIC: u32 = 0x4;
}

/// The memory that a variable or a pointer refers to.
#[derive(Clone, Copy, Debug, PartialEq, Eq, Structural)]
pub enum AddressSpace {
    /// Local to one call of a function.
    Function,
    /// Private to one invocation of the shader.
    Private,
    /// Shared by the invocations of one workgroup.
    WorkGroup,
    /// Uniform buffers.
    Uniform,
    /// Storage buffers.
    Storage { access: StorageAccess },
    /// Opaque handles, such as images and samplers.
    Handle,
    /// Push constants.
    PushConstant,
}

/// The number of elements of an array.
#[derive(Clone, Copy, Debug, PartialEq, Eq, Structural)]
pub enum ArraySize {
    /// A number known when the shader is created.
    Constant(u32),
    /// A number given by the override with this index, which the pipeline
    /// is yet to resolve.
    Pending(u32),
    /// A number known only when the shader runs.
    Dynamic,
}

/// The number of dimensions of an image.
#[derive(Clone, Copy, Debug, PartialEq, Eq, Structural)]
pub enum ImageDimension {
    /// One dimension.
    D1,
    /// Two dimensions.
    D2,
    /// Three dimensions.
    D3,
    /// The six faces of a cube.
    Cube,
}

/// How an image is used.
#[derive(Clone, Copy, Debug, PartialEq, Eq, Structural)]
pub enum ImageClass {
    /// Read through a sampler.
    Sampled { kind: ScalarKind, multi: bool },
    /// Read through a sampler that compares depths.
    Depth { multi: bool },
    /// Read and written texel by texel.
    Storage { access: StorageAccess },
}

/// A member of a struct. The offset is the author's: the validator checks
/// it and does not compute it.
#[derive(Clone, Debug, PartialEq, Eq)]
pub struct StructMember {
    pub name: Option<String>,
    pub ty: Handle,
    pub offset: u32,
}

/// The shape of a type.
#[derive(Clone, Debug, PartialEq, Eq)]
pub enum TypeInner {
    /// One number or boolean.
    Scalar(Scalar),
    /// A vector of scalars.
    Vector { size: VectorSize, scalar: Scalar },
    /// A matrix of floats, stored as columns.
    Matrix { columns: VectorSize, rows: VectorSize, scalar: Scalar },
    /// A scalar on which atomic operations work.
    Atomic(Scalar),
    /// A pointer to a value of another type.
    Pointer { base: Handle, space: AddressSpace },
    /// A pointer to a scalar or, with a size, to a vector, where the type
    /// pointed to has no handle of its own.
    ValuePointer { size: Option<VectorSize>, scalar: Scalar, space: AddressSpace },
    /// An array of `base`, whose elements lie `stride` bytes apart.
    Array { base: Handle, size: ArraySize, stride: u32 },
    /// A struct of `span` bytes.
    Struct { members: Vec<StructMember>, span: u32 },
    /// An image.
    Image { dim: ImageDimension, arrayed: bool, class: ImageClass },
    /// A sampler; a comparison sampler where `comparison` holds.
    Sampler { comparison: bool },
    /// An acceleration structure for ray queries.
    AccelerationStructure { vertex_return: bool },
    /// The state of a ray query.
    RayQuery { vertex_return: bool },
    /// An array of resource bindings.
    BindingArray { base: Handle, size: ArraySize },
}

impl TypeInner {
    /// Whether every type that this one refers to has a handle below
    /// `bound`.
    pub open spec fn refers_below(self, bound: int) -> bool {
        match self {
            TypeInner::Pointer { base, .. } => base.index < bound,
            TypeInner::Array { base, .. } => base.index < bound,
            TypeInner::BindingArray { base, .. } => base.index < bound,
            TypeInner::Struct { members, .. } => {
                &&& members@.len() <= u32::MAX
                &&& forall|i: int|
                    0 <= i < members@.len() ==> (#[trigger] members@[i]).ty.index < bound
            },
            _ => true,
        }
    }

    /// Whether every type that this one refers to has a handle below
    /// `bound`, and the members of a struct are few enough to be numbered
    /// in 32 bits.
    pub fn check_refers_below(&self, bound: usize) -> (r: bool)
        ensures
            r == self.refers_below(bound as int),
    {
        match self {
            TypeInner::Pointer { base, .. } => base.index() < bound,
            TypeInner::Array { base, .. } => base.index() < bound,
            TypeInner::BindingArray { base, .. } => base.index() < bound,
            TypeInner::Struct { members, .. } => {
                if members.len() > u32::MAX as usize {
                    return false;
                }
                let mut i: usize = 0;
                while i < members.len()
                    invariant
                        i <= members@.len(),
                        forall|j: int| 0 <= j < i ==> (#[trigger] members@[j]).ty.index < bound,
                        self.refers_below(bound as int) == (forall|j: int|
                            0 <= j < members@.len() ==> (#[trigger] members@[j]).ty.index
                                < bound),
                    decreases members@.len() - i,
                {
                    if members[i].ty.index() >= bound {
                        assert(members@[i as int].ty.index >= bound);
                        return false;
                    }
                    i += 1;
                }
                true
            },
            _ => true,
        }
    }

    /// Whether the type is a struct.
    pub fn is_struct(&self) -> (r: bool)
        ensures
            r == (*self is Struct),
    {
        match self {
            TypeInner::Struct { .. } => true,
            _ => false,
        }
    }

    /// Whether the type is an array.
    pub fn is_array(&self) -> (r: bool)
        ensures
            r == (*self is Array),
    {
        match self {
            TypeInner::Array { .. } => true,
            _ => false,
        }
    }
}

/// A type of a module: a shape, and the name the author gave it.
#[derive(Clone, Debug, PartialEq, Eq)]
pub struct Type {
    pub name: Option<String>,
    pub inner: TypeInner,
}

/// What the validator reads of a module: its types, and the size in bytes
/// that was resolved for each.
#[derive(Clone, Debug, PartialEq, Eq)]
pub struct GlobalCtx {
    pub types: Vec<Type>,
    pub sizes: Vec<u32>,
}

impl GlobalCtx {
    /// The table is valid when every type has a size, every type has a
    /// handle, and a type refers only to types before it.
    pub open spec fn wf(&self) -> bool {
        &&& self.types@.len() == self.sizes@.len()
        &&& self.types@.len() <= u32::MAX
        &&& forall|h: int|
            0 <= h < self.types@.len() ==> (#[trigger] self.types@[h]).inner.refers_below(h)
    }

    /// Whether the table is valid: see [`wf`](Self::wf).
    pub fn is_valid(&self) -> (r: bool)
        ensures
            r == self.wf(),
    {
        if self.types.len() != self.sizes.len() || self.types.len() > u32::MAX as usize {
            return false;
        }
        let mut h: usize = 0;
        while h < self.types.len()
            invariant
                h <= self.types@.len(),
                forall|k: int|
                    0 <= k < h ==> (#[trigger] self.types@[k]).inner.refers_below(k),
            decreases self.types@.len() - h,
        {
            if !self.types[h].inner.check_refers_below(h) {
                return false;
            }
            h += 1;
        }
        true
    }

    /// The number of types.
    pub fn len(&self) -> (r: usize)
        ensures
            r == self.types@.len(),
    {
        self.types.len()
    }
}

} // verus!
