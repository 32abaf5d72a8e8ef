use super::alignment::Alignment;
use super::flags::TypeFlags;
use super::ir::Handle;
use super::scalar::Scalar;
use vstd::prelude::*;

verus! {

/// Why a type does not fit a memory layout.
#[derive(Clone, Copy, Debug, PartialEq, Eq)]
pub enum Disalignment {
    /// The stride of an array is no multiple of the alignment it needs.
    ArrayStride { stride: u32, alignment: Alignment },
    /// The span of a struct is no multiple of its alignment.
    StructSpan { span: u32, alignment: Alignment },
    /// The offset of a member is no multiple of the alignment it needs.
    MemberOffset { index: u32, offset: u32, alignment: Alignment },
    /// A member follows a struct member too closely: its offset is below
    /// `expected`.
    MemberOffsetAfterStruct { index: u32, offset: u32, expected: u64 },
    /// A member has no static size.
    UnsizedMember { index: u32 },
    /// The type cannot be shared with the host at all.
    NonHostShareable,
}

/// Why a type cannot be a push constant.
#[derive(Clone, Copy, Debug, PartialEq, Eq)]
pub enum PushConstantError {
    /// The type holds this scalar, which push constants do not support.
    InvalidScalar(Scalar),
}

/// Whether a type fits a memory layout: the alignment it needs there, or
/// the type at fault and what is wrong with it.
pub type LayoutCompatibility = Result<Alignment, (Handle, Disalignment)>;

/// Whether a type can be a push constant.
pub type PushConstantCompatibility = Result<(), PushConstantError>;

/// The first error wins: `current` if it is an error, else `new`.
pub open spec fn combined(
    current: LayoutCompatibility,
    new: LayoutCompatibility,
) -> LayoutCompatibility {
    if current is Err {
        current
    } else {
        new
    }
}

/// The first error wins: `current` if it is an error, else `new`.
pub fn combine(current: LayoutCompatibility, new: LayoutCompatibility) -> (r:
    LayoutCompatibility)
    ensures
        r == combined(current, new),
{
    if current.is_err() {
        current
    } else {
        new
    }
}

/// Whether the layout is an alignment, and a valid one, or an error.
pub open spec fn layout_wf(layout: LayoutCompatibility) -> bool {
    layout matches Ok(alignment) ==> alignment.wf()
}

/// What validation found out about one type.
///
/// The two layouts and the push-constant result are carried inside a
/// valid type's entry: a type can be valid and yet unfit for a uniform
/// buffer, a storage buffer or a push constant.
#[derive(Clone, Copy, Debug, PartialEq, Eq)]
pub struct TypeInfo {
    pub flags: TypeFlags,
    pub uniform_layout: LayoutCompatibility,
    pub storage_layout: LayoutCompatibility,
    pub push_constant_compatibility: PushConstantCompatibility,
}

impl TypeInfo {
    /// An entry is valid when the alignments in it are.
    pub open spec fn wf(self) -> bool {
        layout_wf(self.uniform_layout) && layout_wf(self.storage_layout)
    }

    /// The entry of a type with these flags that needs this alignment in
    /// both layouts and can be a push constant.
    pub open spec fn with(flags: TypeFlags, alignment: Alignment) -> TypeInfo {
        TypeInfo {
            flags,
            uniform_layout: Ok(alignment),
            storage_layout: Ok(alignment),
            push_constant_compatibility: Ok(()),
        }
    }

    /// The entry that stands in the table before a type is validated: no
    /// flags, alignment one.
    pub open spec fn placeholder() -> TypeInfo {
        TypeInfo::with(TypeFlags { bits: 0 }, Alignment { value: 1 })
    }

    /// The entry that stands in the table before a type is validated.
    pub fn dummy() -> (r: TypeInfo)
        ensures
            r == TypeInfo::placeholder(),
            r.wf(),
    {
        TypeInfo::new(TypeFlags::empty(), Alignment::one())
    }

    /// The entry of a type with these flags that needs this alignment in
    /// both layouts and can be a push constant.
    pub fn new(flags: TypeFlags, alignment: Alignment) -> (r: TypeInfo)
        ensures
            r == TypeInfo::with(flags, alignment),
    {
        TypeInfo {
            flags,
            uniform_layout: Ok(alignment),
            storage_layout: Ok(alignment),
            push_constant_compatibility: Ok(()),
        }
    }
}

} // verus!
