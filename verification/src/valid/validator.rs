use super::alignment::{lemma_small_powers, Alignment, VectorSize};
use super::capabilities::Capabilities;
use super::error::{result_model, TypeError, TypeErrorModel};
use super::flags::{flags_contains, flags_intersect, flags_union, TypeFlags};
use super::ir::{
    AddressSpace, ArraySize, GlobalCtx, Handle, ImageClass, ImageDimension, StructMember,
    TypeInner,
};
use super::scalar::{Scalar, ScalarKind};
use super::struct_layout::{
    check_member, lemma_walk_keeps_error, members_walked, struct_validity, MemberWalk,
};
use super::type_info::{Disalignment, LayoutCompatibility, TypeInfo};
use super::width::{check_width, width_checked};
use vstd::prelude::*;

verus! {

/// The flags of a scalar and of a vector, before what their kind adds.
pub const SCALAR_FLAGS: u8 = TypeFlags::DATA | TypeFlags::SIZED | TypeFlags::COPY
    | TypeFlags::ARGUMENT | TypeFlags::CONSTRUCTIBLE | TypeFlags::CREATION_RESOLVED;

/// What a numeric kind adds to the flags of a scalar or a vector.
pub const NUMERIC_FLAGS: u8 = TypeFlags::IO_SHAREABLE | TypeFlags::HOST_SHAREABLE;

/// The flags of a matrix.
pub const MATRIX_FLAGS: u8 = TypeFlags::DATA | TypeFlags::SIZED | TypeFlags::COPY
    | TypeFlags::HOST_SHAREABLE | TypeFlags::ARGUMENT | TypeFlags::CONSTRUCTIBLE
    | TypeFlags::CREATION_RESOLVED;

/// The flags of an atomic.
pub const ATOMIC_FLAGS: u8 = TypeFlags::DATA | TypeFlags::SIZED | TypeFlags::HOST_SHAREABLE
    | TypeFlags::CREATION_RESOLVED;

/// The flags of a pointer, before what its address space adds. A pointer
/// cannot be stored, so `DATA` is not among them.
pub const POINTER_FLAGS: u8 = TypeFlags::SIZED | TypeFlags::COPY | TypeFlags::CREATION_RESOLVED;

/// What the elements of an array must have.
pub const ARRAY_BASE_REQUIRED: u8 = TypeFlags::DATA | TypeFlags::SIZED
    | TypeFlags::CREATION_RESOLVED;

/// What an array of constant size keeps of the flags of its elements.
pub const ARRAY_CONSTANT_MASK: u8 = TypeFlags::DATA | TypeFlags::SIZED | TypeFlags::COPY
    | TypeFlags::HOST_SHAREABLE | TypeFlags::ARGUMENT | TypeFlags::CONSTRUCTIBLE
    | TypeFlags::CREATION_RESOLVED;

/// What an array keeps whose size awaits an override: as for a constant
/// size, but neither `SIZED` nor `CREATION_RESOLVED`.
pub const ARRAY_PENDING_MASK: u8 = TypeFlags::DATA | TypeFlags::COPY
    | TypeFlags::HOST_SHAREABLE | TypeFlags::ARGUMENT | TypeFlags::CONSTRUCTIBLE;

/// What an array keeps whose size is known only at run time.
pub const ARRAY_DYNAMIC_MASK: u8 = TypeFlags::DATA | TypeFlags::COPY
    | TypeFlags::HOST_SHAREABLE | TypeFlags::CREATION_RESOLVED;

/// The flags of an image, a sampler and an acceleration structure.
pub const OPAQUE_FLAGS: u8 = TypeFlags::ARGUMENT | TypeFlags::CREATION_RESOLVED;

/// The flags of a ray query.
pub const RAY_QUERY_FLAGS: u8 = TypeFlags::DATA | TypeFlags::CONSTRUCTIBLE | TypeFlags::SIZED
    | TypeFlags::CREATION_RESOLVED;

/// What a binding array of constant size keeps of the flags of its base.
pub const BINDING_CONSTANT_MASK: u8 = TypeFlags::SIZED | TypeFlags::HOST_SHAREABLE
    | TypeFlags::CREATION_RESOLVED;

/// What a binding array keeps whose size awaits an override.
pub const BINDING_PENDING_MASK: u8 = TypeFlags::SIZED | TypeFlags::HOST_SHAREABLE;

/// What a binding array keeps whose size is known only at run time.
pub const BINDING_DYNAMIC_MASK: u8 = TypeFlags::HOST_SHAREABLE | TypeFlags::CREATION_RESOLVED;

/// The 64-bit atomic capabilities, of which an atomic of eight bytes needs
/// one.
pub const INT64_ATOMIC: u32 = Capabilities::SHADER_INT64_ATOMIC_ALL_OPS
    | Capabilities::SHADER_INT64_ATOMIC_MIN_MAX;

/// The size and the alignment that the layout calculator found for a type.
#[derive(Clone, Copy, Debug, PartialEq, Eq)]
pub struct TypeLayout {
    pub size: u32,
    pub alignment: Alignment,
}

/// The layouts of the types of a module, by handle.
#[derive(Clone, Debug, PartialEq, Eq)]
pub struct Layouter {
    pub layouts: Vec<TypeLayout>,
}

/// Whether the layouts go with a module of `count` types: one for each
/// type, with a valid alignment.
pub open spec fn layouts_fit(layouts: Seq<TypeLayout>, count: nat) -> bool {
    &&& layouts.len() == count
    &&& forall|i: int| 0 <= i < layouts.len() ==> (#[trigger] layouts[i]).alignment.wf()
}

/// Whether the layouts go with a module of `count` types.
pub fn check_layouts(layouts: &Vec<TypeLayout>, count: usize) -> (r: bool)
    ensures
        r == layouts_fit(layouts@, count as nat),
{
    if layouts.len() != count {
        return false;
    }
    let mut i: usize = 0;
    while i < layouts.len()
        invariant
            i <= layouts@.len(),
            forall|j: int| 0 <= j < i ==> (#[trigger] layouts@[j]).alignment.wf(),
        decreases layouts@.len() - i,
    {
        if !layouts[i].alignment.is_valid() {
            return false;
        }
        i += 1;
    }
    true
}

impl Layouter {
    /// A calculator without layouts.
    pub fn new() -> (r: Layouter)
        ensures
            r.layouts@.len() == 0,
    {
        Layouter { layouts: Vec::new() }
    }

    /// Forgets every layout.
    pub fn clear(&mut self)
        ensures
            final(self).layouts@.len() == 0,
    {
        self.layouts.clear();
    }
}

/// ARGUMENT where a pointer into `space` can be passed to a function, that
/// is into the function or the private address space; else no flag.
pub open spec fn argument_flag(space: AddressSpace) -> u8 {
    match space {
        AddressSpace::Function | AddressSpace::Private => TypeFlags::ARGUMENT,
        _ => 0,
    }
}

/// Determines whether a pointer into `space` can be passed to a function:
/// `ARGUMENT` if so, else the empty set.
pub fn ptr_space_argument_flag(space: AddressSpace) -> (r: TypeFlags)
    ensures
        r.bits == argument_flag(space),
{
    match space {
        AddressSpace::Function | AddressSpace::Private => TypeFlags::from_bits(
            TypeFlags::ARGUMENT,
        ),
        AddressSpace::Uniform
        | AddressSpace::Storage { .. }
        | AddressSpace::Handle
        | AddressSpace::PushConstant
        | AddressSpace::WorkGroup => TypeFlags::empty(),
    }
}

/// What a numeric kind adds to the flags of a scalar or a vector.
pub open spec fn shareable_flags(kind: ScalarKind) -> u8 {
    if kind.numeric() {
        NUMERIC_FLAGS
    } else {
        0
    }
}

/// The entry of a scalar (`lanes` is one) or of a vector: the width must be
/// legal, the alignment is that of the width times `lanes`.
pub open spec fn scalar_validity(
    scalar: Scalar,
    lanes: Alignment,
    capabilities: Capabilities,
) -> Result<TypeInfo, TypeErrorModel> {
    match width_checked(scalar, capabilities) {
        Err(e) => Err(TypeErrorModel::WidthError(e)),
        Ok(push_constant_compatibility) => Ok(
            TypeInfo {
                push_constant_compatibility,
                ..TypeInfo::with(
                    TypeFlags { bits: SCALAR_FLAGS | shareable_flags(scalar.kind) },
                    Alignment { value: (lanes.value * scalar.width) as u32 },
                )
            },
        ),
    }
}

/// The entry of a matrix with columns of `rows` elements: the elements
/// must be floats of a legal width.
pub open spec fn matrix_validity(
    rows: VectorSize,
    scalar: Scalar,
    capabilities: Capabilities,
) -> Result<TypeInfo, TypeErrorModel> {
    if !(scalar.kind is Float) {
        Err(TypeErrorModel::MatrixElementNotFloat)
    } else {
        match width_checked(scalar, capabilities) {
            Err(e) => Err(TypeErrorModel::WidthError(e)),
            Ok(push_constant_compatibility) => Ok(
                TypeInfo {
                    push_constant_compatibility,
                    ..TypeInfo::with(
                        TypeFlags { bits: MATRIX_FLAGS },
                        Alignment {
                            value: (Alignment::of_vector_size(rows).value * scalar.width) as u32,
                        },
                    )
                },
            ),
        }
    }
}

/// The entry of an atomic.
///
/// Integers of four bytes are atomic under every set of capabilities.
/// Integers of eight bytes need one of the 64-bit atomic capabilities, and
/// are refused for the lack of it. Floats of four bytes need the float
/// atomic capability. Every other scalar, and such a float without the
/// capability, has no atomic.
pub open spec fn atomic_validity(scalar: Scalar, capabilities: Capabilities) -> Result<
    TypeInfo,
    TypeErrorModel,
> {
    let integer = scalar.kind is Sint || scalar.kind is Uint;
    let info = TypeInfo::with(
        TypeFlags { bits: ATOMIC_FLAGS },
        Alignment { value: scalar.width as u32 },
    );
    if integer && scalar.width == 4 {
        Ok(info)
    } else if integer && scalar.width == 8 {
        if capabilities.has_any(INT64_ATOMIC) {
            Ok(info)
        } else {
            Err(
                TypeErrorModel::MissingCapability(
                    Capabilities { bits: Capabilities::SHADER_INT64_ATOMIC_ALL_OPS },
                ),
            )
        }
    } else if scalar.kind is Float && scalar.width == 4 && capabilities.has(
        Capabilities::SHADER_FLOAT32_ATOMIC,
    ) {
        Ok(info)
    } else {
        Err(TypeErrorModel::InvalidAtomicWidth(scalar.kind, scalar.width))
    }
}

/// The entry of every pointer that is accepted: it can be copied, has a
/// size, and can be an argument where its address space allows.
pub open spec fn pointer_info(space: AddressSpace) -> TypeInfo {
    TypeInfo::with(
        TypeFlags { bits: argument_flag(space) | POINTER_FLAGS },
        Alignment { value: 1 },
    )
}

/// The entry of a pointer to the type with entry `base_info`: that type
/// must be data, and if it has no size the pointer must point into storage.
pub open spec fn pointer_validity(
    base: Handle,
    space: AddressSpace,
    base_info: TypeInfo,
) -> Result<TypeInfo, TypeErrorModel> {
    if !base_info.flags.has(TypeFlags::DATA) {
        Err(TypeErrorModel::InvalidPointerBase(base))
    } else if !base_info.flags.has(TypeFlags::SIZED) && !(space is Storage) {
        Err(TypeErrorModel::InvalidPointerToUnsized { base, space })
    } else {
        Ok(pointer_info(space))
    }
}

/// The entry of a pointer to a scalar or vector that has no handle: the
/// width must be legal.
pub open spec fn value_pointer_validity(
    scalar: Scalar,
    space: AddressSpace,
    capabilities: Capabilities,
) -> Result<TypeInfo, TypeErrorModel> {
    match width_checked(scalar, capabilities) {
        Err(e) => Err(TypeErrorModel::WidthError(e)),
        Ok(_) => Ok(pointer_info(space)),
    }
}

/// The layout of an array: the elements need the greatest of their own
/// alignment, the alignment of their layout and `floor`, and the stride
/// must be a multiple of that. An element that does not fit makes the array
/// unfit for the same reason.
pub open spec fn array_layout(
    handle: Handle,
    stride: u32,
    base_layout: LayoutCompatibility,
    general_alignment: Alignment,
    floor: Alignment,
) -> LayoutCompatibility {
    match base_layout {
        Ok(base_alignment) => {
            let alignment = base_alignment.join(general_alignment).join(floor);
            if alignment.aligns(stride) {
                Ok(alignment)
            } else {
                Err((handle, Disalignment::ArrayStride { stride, alignment }))
            }
        },
        Err(e) => Err(e),
    }
}

/// What an array keeps of the flags of its elements.
pub open spec fn array_mask(size: ArraySize) -> u8 {
    match size {
        ArraySize::Constant(_) => ARRAY_CONSTANT_MASK,
        ArraySize::Pending(_) => ARRAY_PENDING_MASK,
        ArraySize::Dynamic => ARRAY_DYNAMIC_MASK,
    }
}

/// The entry of an array whose elements have entry `base_info` and
/// alignment `general_alignment`: the elements must be data of a size that
/// is fixed when the shader is created.
pub open spec fn array_validity(
    handle: Handle,
    base: Handle,
    size: ArraySize,
    stride: u32,
    base_info: TypeInfo,
    general_alignment: Alignment,
) -> Result<TypeInfo, TypeErrorModel> {
    if !base_info.flags.has(ARRAY_BASE_REQUIRED) {
        Err(TypeErrorModel::InvalidArrayBaseType(base))
    } else {
        Ok(
            TypeInfo {
                flags: TypeFlags { bits: base_info.flags.bits & array_mask(size) },
                uniform_layout: array_layout(
                    handle,
                    stride,
                    base_info.uniform_layout,
                    general_alignment,
                    Alignment { value: Alignment::MIN_UNIFORM },
                ),
                storage_layout: array_layout(
                    handle,
                    stride,
                    base_info.storage_layout,
                    general_alignment,
                    Alignment { value: 1 },
                ),
                push_constant_compatibility: base_info.push_constant_compatibility,
            },
        )
    }
}

/// The entry of an image: no arrayed image has three dimensions, and an
/// arrayed cube needs its capability.
pub open spec fn image_validity(
    dim: ImageDimension,
    arrayed: bool,
    class: ImageClass,
    capabilities: Capabilities,
) -> Result<TypeInfo, TypeErrorModel> {
    if arrayed && dim is D3 {
        Err(TypeErrorModel::UnsupportedImageType { dim, arrayed, class })
    } else if arrayed && dim is Cube && !capabilities.has(Capabilities::CUBE_ARRAY_TEXTURES) {
        Err(
            TypeErrorModel::MissingCapability(
                Capabilities { bits: Capabilities::CUBE_ARRAY_TEXTURES },
            ),
        )
    } else {
        Ok(TypeInfo::with(TypeFlags { bits: OPAQUE_FLAGS }, Alignment { value: 1 }))
    }
}

/// The entry, with flags `flags`, of an acceleration structure or of a ray
/// query: both need the ray query capability and, to return vertices, the
/// capability for that.
pub open spec fn ray_validity(
    vertex_return: bool,
    flags: u8,
    capabilities: Capabilities,
) -> Result<TypeInfo, TypeErrorModel> {
    if !capabilities.has(Capabilities::RAY_QUERY) {
        Err(TypeErrorModel::MissingCapability(Capabilities { bits: Capabilities::RAY_QUERY }))
    } else if vertex_return && !capabilities.has(Capabilities::RAY_HIT_VERTEX_POSITION) {
        Err(
            TypeErrorModel::MissingCapability(
                Capabilities { bits: Capabilities::RAY_HIT_VERTEX_POSITION },
            ),
        )
    } else {
        Ok(TypeInfo::with(TypeFlags { bits: flags }, Alignment { value: 1 }))
    }
}

/// What a binding array keeps of the flags of its base.
pub open spec fn binding_array_mask(size: ArraySize) -> u8 {
    match size {
        ArraySize::Constant(_) => BINDING_CONSTANT_MASK,
        ArraySize::Pending(_) => BINDING_PENDING_MASK,
        ArraySize::Dynamic => BINDING_DYNAMIC_MASK,
    }
}

/// The entry of a binding array over the type with entry `base_info`: a
/// base that is data must be a struct, and the size of the base must not
/// await an override.
pub open spec fn binding_array_validity(
    base: Handle,
    size: ArraySize,
    base_info: TypeInfo,
    base_is_struct: bool,
) -> Result<TypeInfo, TypeErrorModel> {
    if base_info.flags.has(TypeFlags::DATA) && !base_is_struct {
        Err(TypeErrorModel::BindingArrayBaseTypeNotStruct(base))
    } else if !base_info.flags.has(TypeFlags::CREATION_RESOLVED) {
        Err(TypeErrorModel::InvalidData(base))
    } else {
        Ok(
            TypeInfo::with(
                TypeFlags { bits: base_info.flags.bits & binding_array_mask(size) },
                Alignment { value: 1 },
            ),
        )
    }
}

/// What validating the type `handle` gives: its entry, or why it is
/// refused.
///
/// `infos` holds the entries of the types before `handle`; what it holds
/// from `handle` on is not read (see
/// [`lemma_validity_reads_earlier_entries`]). `layouts` holds the layout of
/// every type.
pub open spec fn type_validity(
    capabilities: Capabilities,
    infos: Seq<TypeInfo>,
    layouts: Seq<TypeLayout>,
    gctx: &GlobalCtx,
    handle: Handle,
) -> Result<TypeInfo, TypeErrorModel> {
    match gctx.types@[handle.index as int].inner {
        TypeInner::Scalar(scalar) => scalar_validity(
            scalar,
            Alignment { value: 1 },
            capabilities,
        ),
        TypeInner::Vector { size, scalar } => scalar_validity(
            scalar,
            Alignment::of_vector_size(size),
            capabilities,
        ),
        TypeInner::Matrix { columns: _, rows, scalar } => matrix_validity(
            rows,
            scalar,
            capabilities,
        ),
        TypeInner::Atomic(scalar) => atomic_validity(scalar, capabilities),
        TypeInner::Pointer { base, space } => pointer_validity(
            base,
            space,
            infos[base.index as int],
        ),
        TypeInner::ValuePointer { size: _, scalar, space } => value_pointer_validity(
            scalar,
            space,
            capabilities,
        ),
        TypeInner::Array { base, size, stride } => array_validity(
            handle,
            base,
            size,
            stride,
            infos[base.index as int],
            layouts[base.index as int].alignment,
        ),
        TypeInner::Struct { members, span } => struct_validity(
            handle,
            members@,
            span,
            infos,
            layouts[handle.index as int].alignment,
            gctx,
        ),
        TypeInner::Image { dim, arrayed, class } => image_validity(
            dim,
            arrayed,
            class,
            capabilities,
        ),
        TypeInner::Sampler { .. } => Ok(
            TypeInfo::with(TypeFlags { bits: OPAQUE_FLAGS }, Alignment { value: 1 }),
        ),
        TypeInner::AccelerationStructure { vertex_return } => ray_validity(
            vertex_return,
            OPAQUE_FLAGS,
            capabilities,
        ),
        TypeInner::RayQuery { vertex_return } => ray_validity(
            vertex_return,
            RAY_QUERY_FLAGS,
            capabilities,
        ),
        TypeInner::BindingArray { base, size } => binding_array_validity(
            base,
            size,
            infos[base.index as int],
            gctx.types@[base.index as int].inner is Struct,
        ),
    }
}

/// The table of entries before any type is validated: a placeholder for
/// each of `len` types.
pub open spec fn placeholders(len: nat) -> Seq<TypeInfo> {
    Seq::new(len, |i: int| TypeInfo::placeholder())
}

/// The table of entries once the first `upto` types of the module are
/// validated, in the order of their handles, each against the table that
/// the types before it left; or the first type that is refused, and why.
pub open spec fn types_validated(
    capabilities: Capabilities,
    layouts: Seq<TypeLayout>,
    gctx: &GlobalCtx,
    upto: nat,
) -> Result<Seq<TypeInfo>, (Handle, TypeErrorModel)>
    decreases upto,
{
    if upto == 0 {
        Ok(placeholders(gctx.types@.len()))
    } else {
        let handle = Handle { index: (upto - 1) as u32 };
        match types_validated(capabilities, layouts, gctx, (upto - 1) as nat) {
            Err(refused) => Err(refused),
            Ok(infos) => match type_validity(capabilities, infos, layouts, gctx, handle) {
                Ok(info) => Ok(infos.update(upto - 1, info)),
                Err(e) => Err((handle, e)),
            },
        }
    }
}

/// Once a type is refused, the table stays refused however far the
/// validation would go.
pub proof fn lemma_table_keeps_error(
    capabilities: Capabilities,
    layouts: Seq<TypeLayout>,
    gctx: &GlobalCtx,
    failed: nat,
    upto: nat,
)
    requires
        failed <= upto,
        types_validated(capabilities, layouts, gctx, failed) is Err,
    ensures
        types_validated(capabilities, layouts, gctx, upto) == types_validated(
            capabilities,
            layouts,
            gctx,
            failed,
        ),
    decreases upto,
{
    if failed < upto {
        lemma_table_keeps_error(capabilities, layouts, gctx, failed, (upto - 1) as nat);
    }
}

/// Whether `after` and `result` are what validating the types of `gctx`
/// under `capabilities`, with the layouts `layouts`, leaves and returns.
///
/// On success the table holds the entry of every type. On failure the
/// result names the first type that is refused, and the table holds the
/// entries of the types before it and placeholders from there on.
pub open spec fn types_outcome(
    capabilities: Capabilities,
    layouts: Seq<TypeLayout>,
    gctx: &GlobalCtx,
    after: Validator,
    result: Result<(), (Handle, TypeError)>,
) -> bool {
    let all = types_validated(capabilities, layouts, gctx, gctx.types@.len());
    &&& after.capabilities == capabilities
    &&& after.layouter.layouts@ == layouts
    &&& match result {
        Ok(()) => all == Ok::<Seq<TypeInfo>, (Handle, TypeErrorModel)>(after.types@),
        Err((handle, e)) => {
            &&& all == Err::<Seq<TypeInfo>, (Handle, TypeErrorModel)>((handle, e@))
            &&& handle.index < gctx.types@.len()
            &&& types_validated(capabilities, layouts, gctx, handle.index as nat) == Ok::<
                Seq<TypeInfo>,
                (Handle, TypeErrorModel),
            >(after.types@)
        },
    }
}

/// The validator of the types of a module: the capabilities it validates
/// under, the entry of each type, and the layouts it was given.
#[derive(Clone, Debug, PartialEq, Eq)]
pub struct Validator {
    pub capabilities: Capabilities,
    pub types: Vec<TypeInfo>,
    pub layouter: Layouter,
}

impl Validator {
    /// Whether the validator's tables go with the module `gctx`: an entry
    /// and a layout for every type, and valid alignments in all of them.
    pub open spec fn fits(&self, gctx: &GlobalCtx) -> bool {
        &&& self.types@.len() == gctx.types@.len()
        &&& forall|i: int| 0 <= i < self.types@.len() ==> (#[trigger] self.types@[i]).wf()
        &&& layouts_fit(self.layouter.layouts@, gctx.types@.len())
    }

    /// A validator for these capabilities, with empty tables.
    pub fn new(capabilities: Capabilities) -> (r: Validator)
        ensures
            r.capabilities == capabilities,
            r.types@.len() == 0,
            r.layouter.layouts@.len() == 0,
    {
        Validator { capabilities, types: Vec::new(), layouter: Layouter::new() }
    }

    /// Succeeds where the validator has every capability of `capability`,
    /// and else fails with those as the missing ones.
    pub fn require_type_capability(&self, capability: u32) -> (r: Result<(), TypeError>)
        ensures
            r == (if self.capabilities.has(capability) {
                Ok(())
            } else {
                Err(TypeError::MissingCapability(Capabilities { bits: capability }))
            }),
    {
        if self.capabilities.contains(capability) {
            Ok(())
        } else {
            Err(TypeError::MissingCapability(Capabilities::from_bits(capability)))
        }
    }

    /// Sizes the table of entries for `size` types, each with the
    /// placeholder entry, and forgets the layouts.
    pub fn reset_types(&mut self, size: usize)
        ensures
            final(self).capabilities == old(self).capabilities,
            final(self).types@ == placeholders(size as nat),
            final(self).layouter.layouts@.len() == 0,
    {
        self.types.clear();
        let mut i: usize = 0;
        while i < size
            invariant
                i <= size,
                self.capabilities == old(self).capabilities,
                self.layouter == old(self).layouter,
                self.types@ == placeholders(i as nat),
            decreases size - i,
        {
            self.types.push(TypeInfo::dummy());
            i += 1;
        }
        self.layouter.clear();
    }

    fn validate_scalar(&self, scalar: Scalar, lanes: Alignment) -> (r: Result<
        TypeInfo,
        TypeError,
    >)
        requires
            lanes.value == 1 || lanes.value == 2 || lanes.value == 4,
        ensures
            result_model(r) == scalar_validity(scalar, lanes, self.capabilities),
            r matches Ok(info) ==> info.wf(),
    {
        let push_constant_compatibility = match check_width(scalar, self.capabilities) {
            Ok(compatibility) => compatibility,
            Err(e) => {
                return Err(TypeError::from(e));
            },
        };
        let shareable = if scalar.kind.is_numeric() {
            TypeFlags::from_bits(NUMERIC_FLAGS)
        } else {
            TypeFlags::empty()
        };
        proof {
            lemma_small_powers();
        }
        let mut type_info = TypeInfo::new(
            flags_union(TypeFlags::from_bits(SCALAR_FLAGS), shareable),
            lanes.times(Alignment::from_width(scalar.width)),
        );
        type_info.push_constant_compatibility = push_constant_compatibility;
        Ok(type_info)
    }

    fn validate_matrix(&self, rows: VectorSize, scalar: Scalar) -> (r: Result<
        TypeInfo,
        TypeError,
    >)
        ensures
            result_model(r) == matrix_validity(rows, scalar, self.capabilities),
            r matches Ok(info) ==> info.wf(),
    {
        match scalar.kind {
            ScalarKind::Float => {},
            _ => {
                return Err(TypeError::MatrixElementNotFloat);
            },
        }
        let push_constant_compatibility = match check_width(scalar, self.capabilities) {
            Ok(compatibility) => compatibility,
            Err(e) => {
                return Err(TypeError::from(e));
            },
        };
        proof {
            lemma_small_powers();
        }
        let mut type_info = TypeInfo::new(
            TypeFlags::from_bits(MATRIX_FLAGS),
            Alignment::from_vector_size(rows).times(Alignment::from_width(scalar.width)),
        );
        type_info.push_constant_compatibility = push_constant_compatibility;
        Ok(type_info)
    }

    fn validate_atomic(&self, scalar: Scalar) -> (r: Result<TypeInfo, TypeError>)
        ensures
            result_model(r) == atomic_validity(scalar, self.capabilities),
            r matches Ok(info) ==> info.wf(),
    {
        let supported = match scalar.kind {
            ScalarKind::Sint | ScalarKind::Uint => {
                if scalar.width == 8 {
                    if !self.capabilities.intersects(INT64_ATOMIC) {
                        return Err(
                            TypeError::MissingCapability(
                                Capabilities::from_bits(
                                    Capabilities::SHADER_INT64_ATOMIC_ALL_OPS,
                                ),
                            ),
                        );
                    }
                    true
                } else {
                    scalar.width == 4
                }
            },
            ScalarKind::Float => scalar.width == 4 && self.capabilities.contains(
                Capabilities::SHADER_FLOAT32_ATOMIC,
            ),
            _ => false,
        };
        if !supported {
            return Err(TypeError::InvalidAtomicWidth(scalar.kind, scalar.width));
        }
        proof {
            lemma_small_powers();
        }
        Ok(
            TypeInfo::new(
                TypeFlags::from_bits(ATOMIC_FLAGS),
                Alignment::from_width(scalar.width),
            ),
        )
    }

    fn pointer_type_info(space: AddressSpace) -> (r: TypeInfo)
        ensures
            r == pointer_info(space),
            r.wf(),
    {
        // Pointers cannot be stored in variables, members or elements, so
        // they are not marked as data.
        TypeInfo::new(
            flags_union(ptr_space_argument_flag(space), TypeFlags::from_bits(POINTER_FLAGS)),
            Alignment::one(),
        )
    }

    fn validate_pointer(&self, base: Handle, space: AddressSpace) -> (r: Result<
        TypeInfo,
        TypeError,
    >)
        requires
            base.index < self.types@.len(),
        ensures
            result_model(r) == pointer_validity(base, space, self.types@[base.index as int]),
            r matches Ok(info) ==> info.wf(),
    {
        let base_info = self.types[base.index()];
        if !flags_contains(base_info.flags, TypeFlags::DATA) {
            return Err(TypeError::InvalidPointerBase(base));
        }
        // A value without a size can only live in storage, so a pointer to
        // one is of no use in any other address space.

        if !flags_contains(base_info.flags, TypeFlags::SIZED) {
            match space {
                AddressSpace::Storage { .. } => {},
                _ => {
                    return Err(TypeError::InvalidPointerToUnsized { base, space });
                },
            }
        }
        Ok(Validator::pointer_type_info(space))
    }

    fn validate_value_pointer(&self, scalar: Scalar, space: AddressSpace) -> (r: Result<
        TypeInfo,
        TypeError,
    >)
        ensures
            result_model(r) == value_pointer_validity(scalar, space, self.capabilities),
            r matches Ok(info) ==> info.wf(),
    {
        // The scalar or vector pointed to is data and has a size, so of
        // the checks of a pointer only the width is left.
        match check_width(scalar, self.capabilities) {
            Ok(_) => Ok(Validator::pointer_type_info(space)),
            Err(e) => Err(TypeError::from(e)),
        }
    }

    fn check_array_layout(
        handle: Handle,
        stride: u32,
        base_layout: LayoutCompatibility,
        general_alignment: Alignment,
        floor: Alignment,
    ) -> (r: LayoutCompatibility)
        requires
            base_layout matches Ok(alignment) ==> alignment.wf(),
            general_alignment.wf(),
            floor.wf(),
        ensures
            r == array_layout(handle, stride, base_layout, general_alignment, floor),
            r matches Ok(alignment) ==> alignment.wf(),
    {
        match base_layout {
            Ok(base_alignment) => {
                let alignment = base_alignment.max(general_alignment).max(floor);
                if alignment.is_aligned(stride) {
                    Ok(alignment)
                } else {
                    Err((handle, Disalignment::ArrayStride { stride, alignment }))
                }
            },
            Err(e) => Err(e),
        }
    }

    fn validate_array(&self, handle: Handle, base: Handle, size: ArraySize, stride: u32) -> (r:
        Result<TypeInfo, TypeError>)
        requires
            base.index < self.types@.len(),
            base.index < self.layouter.layouts@.len(),
            self.types@[base.index as int].wf(),
            self.layouter.layouts@[base.index as int].alignment.wf(),
        ensures
            result_model(r) == array_validity(
                handle,
                base,
                size,
                stride,
                self.types@[base.index as int],
                self.layouter.layouts@[base.index as int].alignment,
            ),
            r matches Ok(info) ==> info.wf(),
    {
        let base_info = self.types[base.index()];
        if !flags_contains(base_info.flags, ARRAY_BASE_REQUIRED) {
            return Err(TypeError::InvalidArrayBaseType(base));
        }
        let general_alignment = self.layouter.layouts[base.index()].alignment;
        let uniform_layout = Validator::check_array_layout(
            handle,
            stride,
            base_info.uniform_layout,
            general_alignment,
            Alignment::min_uniform(),
        );
        let storage_layout = Validator::check_array_layout(
            handle,
            stride,
            base_info.storage_layout,
            general_alignment,
            Alignment::one(),
        );
        let type_info_mask = match size {
            ArraySize::Constant(_) => ARRAY_CONSTANT_MASK,
            ArraySize::Pending(_) => ARRAY_PENDING_MASK,
            // A type without a size may only be the last member of a
            // struct; the check of structs sees to that.
            ArraySize::Dynamic => ARRAY_DYNAMIC_MASK,
        };
        Ok(
            TypeInfo {
                flags: flags_intersect(base_info.flags, TypeFlags::from_bits(type_info_mask)),
                uniform_layout,
                storage_layout,
                push_constant_compatibility: base_info.push_constant_compatibility,
            },
        )
    }

    fn validate_struct(
        &self,
        handle: Handle,
        members: &Vec<StructMember>,
        span: u32,
        gctx: &GlobalCtx,
    ) -> (r: Result<TypeInfo, TypeError>)
        requires
            gctx.wf(),
            self.fits(gctx),
            handle.index < gctx.types@.len(),
            members@.len() <= u32::MAX,
            forall|i: int| 0 <= i < members@.len() ==> (#[trigger] members@[i]).ty.index
                < handle.index,
        ensures
            result_model(r) == struct_validity(
                handle,
                members@,
                span,
                self.types@,
                self.layouter.layouts@[handle.index as int].alignment,
                gctx,
            ),
            r matches Ok(info) ==> info.wf(),
    {
        if members.len() == 0 {
            return Err(TypeError::EmptyStruct);
        }
        let mut state = MemberWalk::start();
        let mut i: usize = 0;
        while i < members.len()
            invariant
                i <= members@.len(),
                members@.len() <= u32::MAX,
                gctx.wf(),
                self.fits(gctx),
                handle.index < gctx.types@.len(),
                forall|i: int| 0 <= i < members@.len() ==> (#[trigger] members@[i]).ty.index
                    < handle.index,
                state.info.wf(),
                members_walked(handle, members@, span, self.types@, gctx, i as nat) == Ok::<
                    MemberWalk,
                    TypeErrorModel,
                >(state),
            decreases members@.len() - i,
        {
            let member = &members[i];
            let base = member.ty.index();
            let checked = check_member(
                state,
                handle,
                span,
                i as u32,
                member,
                i + 1 == members.len(),
                self.types[base],
                gctx.sizes[base],
                &gctx.types[base].inner,
            );
            match checked {
                Ok(next) => {
                    state = next;
                },
                Err(e) => {
                    proof {
                        lemma_walk_keeps_error(
                            handle,
                            members@,
                            span,
                            self.types@,
                            gctx,
                            (i + 1) as nat,
                            members@.len(),
                        );
                    }
                    return Err(e);
                },
            }
            i += 1;
        }
        let alignment = self.layouter.layouts[handle.index()].alignment;
        let mut ti = state.info;
        if !alignment.is_aligned(span) {
            ti.uniform_layout = Err((handle, Disalignment::StructSpan { span, alignment }));
            ti.storage_layout = Err((handle, Disalignment::StructSpan { span, alignment }));
        }
        Ok(ti)
    }

    fn validate_image(&self, dim: ImageDimension, arrayed: bool, class: ImageClass) -> (r:
        Result<TypeInfo, TypeError>)
        ensures
            result_model(r) == image_validity(dim, arrayed, class, self.capabilities),
            r matches Ok(info) ==> info.wf(),
    {
        if arrayed {
            match dim {
                ImageDimension::D3 => {
                    return Err(TypeError::UnsupportedImageType { dim, arrayed, class });
                },
                ImageDimension::Cube => {
                    match self.require_type_capability(Capabilities::CUBE_ARRAY_TEXTURES) {
                        Ok(()) => {},
                        Err(e) => {
                            return Err(e);
                        },
                    }
                },
                _ => {},
            }
        }
        Ok(TypeInfo::new(TypeFlags::from_bits(OPAQUE_FLAGS), Alignment::one()))
    }

    fn validate_ray(&self, vertex_return: bool, flags: u8) -> (r: Result<TypeInfo, TypeError>)
        ensures
            result_model(r) == ray_validity(vertex_return, flags, self.capabilities),
            r matches Ok(info) ==> info.wf(),
    {
        match self.require_type_capability(Capabilities::RAY_QUERY) {
            Ok(()) => {},
            Err(e) => {
                return Err(e);
            },
        }
        if vertex_return {
            match self.require_type_capability(Capabilities::RAY_HIT_VERTEX_POSITION) {
                Ok(()) => {},
                Err(e) => {
                    return Err(e);
                },
            }
        }
        Ok(TypeInfo::new(TypeFlags::from_bits(flags), Alignment::one()))
    }

    fn validate_binding_array(&self, base: Handle, size: ArraySize, gctx: &GlobalCtx) -> (r:
        Result<TypeInfo, TypeError>)
        requires
            base.index < self.types@.len(),
            base.index < gctx.types@.len(),
        ensures
            result_model(r) == binding_array_validity(
                base,
                size,
                self.types@[base.index as int],
                gctx.types@[base.index as int].inner is Struct,
            ),
            r matches Ok(info) ==> info.wf(),
    {
        let type_info_mask = match size {
            ArraySize::Constant(_) => BINDING_CONSTANT_MASK,
            ArraySize::Pending(_) => BINDING_PENDING_MASK,
            ArraySize::Dynamic => BINDING_DYNAMIC_MASK,
        };
        let base_info = self.types[base.index()];
        if flags_contains(base_info.flags, TypeFlags::DATA) {
            // Of the types that are data, only structs can be bound in
            // arrays.
            if !gctx.types[base.index()].inner.is_struct() {
                return Err(TypeError::BindingArrayBaseTypeNotStruct(base));
            }
        }
        if !flags_contains(base_info.flags, TypeFlags::CREATION_RESOLVED) {
            return Err(TypeError::InvalidData(base));
        }
        Ok(
            TypeInfo::new(
                flags_intersect(base_info.flags, TypeFlags::from_bits(type_info_mask)),
                Alignment::one(),
            ),
        )
    }

    /// Validates the type `handle` of the module `gctx`: gives its entry, or
    /// the reason why the type is refused.
    ///
    /// The entries of the types before `handle` must be in the table: they
    /// are read, and nothing is written.
    pub fn validate_type(&self, handle: Handle, gctx: &GlobalCtx) -> (r: Result<
        TypeInfo,
        TypeError,
    >)
        requires
            gctx.wf(),
            self.fits(gctx),
            handle.index < gctx.types@.len(),
        ensures
            result_model(r) == type_validity(
                self.capabilities,
                self.types@,
                self.layouter.layouts@,
                gctx,
                handle,
            ),
            r matches Ok(info) ==> info.wf(),
    {
        assert(gctx.types@[handle.index as int].inner.refers_below(handle.index as int));
        match &gctx.types[handle.index()].inner {
            TypeInner::Scalar(scalar) => self.validate_scalar(*scalar, Alignment::one()),
            TypeInner::Vector { size, scalar } => self.validate_scalar(
                *scalar,
                Alignment::from_vector_size(*size),
            ),
            TypeInner::Matrix { columns: _, rows, scalar } => self.validate_matrix(
                *rows,
                *scalar,
            ),
            TypeInner::Atomic(scalar) => self.validate_atomic(*scalar),
            TypeInner::Pointer { base, space } => self.validate_pointer(*base, *space),
            TypeInner::ValuePointer { size: _, scalar, space } => self.validate_value_pointer(
                *scalar,
                *space,
            ),
            TypeInner::Array { base, size, stride } => self.validate_array(
                handle,
                *base,
                *size,
                *stride,
            ),
            TypeInner::Struct { members, span } => self.validate_struct(
                handle,
                members,
                *span,
                gctx,
            ),
            TypeInner::Image { dim, arrayed, class } => self.validate_image(
                *dim,
                *arrayed,
                *class,
            ),
            TypeInner::Sampler { .. } => Ok(
                TypeInfo::new(TypeFlags::from_bits(OPAQUE_FLAGS), Alignment::one()),
            ),
            TypeInner::AccelerationStructure { vertex_return } => self.validate_ray(
                *vertex_return,
                OPAQUE_FLAGS,
            ),
            TypeInner::RayQuery { vertex_return } => self.validate_ray(
                *vertex_return,
                RAY_QUERY_FLAGS,
            ),
            TypeInner::BindingArray { base, size } => self.validate_binding_array(
                *base,
                *size,
                gctx,
            ),
        }
    }
    /// Validates every type of the module `gctx` as
    /// [`validate_types`](Self::validate_types) does, if the module and the
    /// layouts are valid and go together. If not, nothing is validated, the
    /// validator stays as it is, and the answer is `None`.
    pub fn try_validate_types(&mut self, gctx: &GlobalCtx, layouts: Vec<TypeLayout>) -> (r:
        Option<Result<(), (Handle, TypeError)>>)
        ensures
            r is Some <==> gctx.wf() && layouts_fit(layouts@, gctx.types@.len()),
            r is None ==> *final(self) == *old(self),
            r matches Some(result) ==> types_outcome(
                old(self).capabilities,
                layouts@,
                gctx,
                *final(self),
                result,
            ) && final(self).fits(gctx),
    {
        if !gctx.is_valid() || !check_layouts(&layouts, gctx.len()) {
            return None;
        }
        Some(self.validate_types(gctx, layouts))
    }

    /// Validates every type of the module `gctx`, in the order of the
    /// handles, and fills the table of entries. `layouts` is what the
    /// layout calculator found for the module.
    ///
    /// The table is built anew: what it held before does not matter. The
    /// first type that is refused ends the pass.
    pub fn validate_types(&mut self, gctx: &GlobalCtx, layouts: Vec<TypeLayout>) -> (r: Result<
        (),
        (Handle, TypeError),
    >)
        requires
            gctx.wf(),
            layouts_fit(layouts@, gctx.types@.len()),
        ensures
            types_outcome(old(self).capabilities, layouts@, gctx, *final(self), r),
            final(self).fits(gctx),
    {
        let count = gctx.types.len();
        self.reset_types(count);
        self.layouter.layouts = layouts;
        let mut i: usize = 0;
        while i < count
            invariant
                i <= count,
                count == gctx.types@.len(),
                gctx.wf(),
                self.fits(gctx),
                self.capabilities == old(self).capabilities,
                self.layouter.layouts@ == layouts@,
                types_validated(self.capabilities, layouts@, gctx, i as nat) == Ok::<
                    Seq<TypeInfo>,
                    (Handle, TypeErrorModel),
                >(self.types@),
            decreases count - i,
        {
            let handle = Handle::new(i as u32);
            match self.validate_type(handle, gctx) {
                Ok(info) => {
                    self.types.set(i, info);
                },
                Err(e) => {
                    proof {
                        lemma_table_keeps_error(
                            self.capabilities,
                            layouts@,
                            gctx,
                            (i + 1) as nat,
                            count as nat,
                        );
                    }
                    return Err((handle, e));
                },
            }
            i += 1;
        }
        Ok(())
    }
}

} // verus!
