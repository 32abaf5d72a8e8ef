use super::capabilities::Capabilities;
use super::ir::{AddressSpace, Handle, ImageClass, ImageDimension};
use super::scalar::ScalarKind;
use vstd::prelude::*;

verus! {

/// Why the width of a scalar is refused.
#[derive(Clone, Copy, Debug, PartialEq, Eq)]
pub enum WidthError {
    /// No scalar of this kind has this width.
    Invalid(ScalarKind, u8),
    /// Scalars of this kind and width exist, but the capability for them is
    /// missing: `name` is the scalar's name, `flag` the capability's.
    MissingCapability { name: &'static str, flag: &'static str },
    /// The scalar is abstract: it may appear in constant expressions only.
    Abstract,
}

/// Why a type is refused.
#[derive(Clone, Debug, PartialEq, Eq)]
pub enum TypeError {
    /// The type needs a capability that is missing.
    MissingCapability(Capabilities),
    /// No atomic of this kind and width is supported.
    InvalidAtomicWidth(ScalarKind, u8),
    /// A pointer points to a type that cannot be stored.
    InvalidPointerBase(Handle),
    /// A pointer to an unsized type is outside the storage address space.
    InvalidPointerToUnsized { base: Handle, space: AddressSpace },
    /// A type cannot be stored, or its size awaits an override.
    InvalidData(Handle),
    /// The elements of an array cannot be stored or have no fixed size.
    InvalidArrayBaseType(Handle),
    /// The elements of a matrix are not floats.
    MatrixElementNotFloat,
    /// No image has this dimension and class, arrayed or not.
    UnsupportedImageType { dim: ImageDimension, arrayed: bool, class: ImageClass },
    /// The member with this name has no static size, and is not an array
    /// at the end of the struct.
    InvalidDynamicArray(String, Handle),
    /// A binding array of data holds something else than structs.
    BindingArrayBaseTypeNotStruct(Handle),
    /// A member starts before the end of the member before it.
    MemberOverlap { index: u32, offset: u32 },
    /// A member ends after the end of the struct.
    MemberOutOfBounds { index: u32, offset: u32, size: u32, span: u32 },
    /// A struct has no member.
    EmptyStruct,
    /// The width of a scalar is refused.
    WidthError(WidthError),
}

impl From<WidthError> for TypeError {
    /// A type is refused where the width of a scalar in it is.
    fn from(e: WidthError) -> (r: TypeError) {
        TypeError::WidthError(e)
    }
}

impl vstd::std_specs::convert::FromSpecImpl<WidthError> for TypeError {
    open spec fn obeys_from_spec() -> bool {
        true
    }

    open spec fn from_spec(e: WidthError) -> TypeError {
        TypeError::WidthError(e)
    }
}

/// A [`TypeError`] as a mathematical value: the same cases, with the name
/// of a member as a sequence of characters.
pub ghost enum TypeErrorModel {
    MissingCapability(Capabilities),
    InvalidAtomicWidth(ScalarKind, u8),
    InvalidPointerBase(Handle),
    InvalidPointerToUnsized { base: Handle, space: AddressSpace },
    InvalidData(Handle),
    InvalidArrayBaseType(Handle),
    MatrixElementNotFloat,
    UnsupportedImageType { dim: ImageDimension, arrayed: bool, class: ImageClass },
    InvalidDynamicArray(Seq<char>, Handle),
    BindingArrayBaseTypeNotStruct(Handle),
    MemberOverlap { index: u32, offset: u32 },
    MemberOutOfBounds { index: u32, offset: u32, size: u32, span: u32 },
    EmptyStruct,
    WidthError(WidthError),
}

impl View for TypeError {
    type V = TypeErrorModel;

    open spec fn view(&self) -> TypeErrorModel {
        match *self {
            TypeError::MissingCapability(c) => TypeErrorModel::MissingCapability(c),
            TypeError::InvalidAtomicWidth(k, w) => TypeErrorModel::InvalidAtomicWidth(k, w),
            TypeError::InvalidPointerBase(h) => TypeErrorModel::InvalidPointerBase(h),
            TypeError::InvalidPointerToUnsized { base, space } => {
                TypeErrorModel::InvalidPointerToUnsized { base, space }
            },
            TypeError::InvalidData(h) => TypeErrorModel::InvalidData(h),
            TypeError::InvalidArrayBaseType(h) => TypeErrorModel::InvalidArrayBaseType(h),
            TypeError::MatrixElementNotFloat => TypeErrorModel::MatrixElementNotFloat,
            TypeError::UnsupportedImageType { dim, arrayed, class } => {
                TypeErrorModel::UnsupportedImageType { dim, arrayed, class }
            },
            TypeError::InvalidDynamicArray(name, h) => {
                TypeErrorModel::InvalidDynamicArray(name@, h)
            },
            TypeError::BindingArrayBaseTypeNotStruct(h) => {
                TypeErrorModel::BindingArrayBaseTypeNotStruct(h)
            },
            TypeError::MemberOverlap { index, offset } => {
                TypeErrorModel::MemberOverlap { index, offset }
            },
            TypeError::MemberOutOfBounds { index, offset, size, span } => {
                TypeErrorModel::MemberOutOfBounds { index, offset, size, span }
            },
            TypeError::EmptyStruct => TypeErrorModel::EmptyStruct,
            TypeError::WidthError(e) => TypeErrorModel::WidthError(e),
        }
    }
}

/// A result with its error as a mathematical value.
pub open spec fn result_model<T>(r: Result<T, TypeError>) -> Result<T, TypeErrorModel> {
    match r {
        Ok(v) => Ok(v),
        Err(e) => Err(e@),
    }
}

} // verus!
