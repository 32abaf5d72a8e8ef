use vstd::prelude::*;

verus! {

/// The width of a boolean, in bytes.
pub const BOOL_WIDTH: u8 = 1;

/// What a scalar holds.
#[derive(Clone, Copy, Debug, PartialEq, Eq, Structural)]
pub enum ScalarKind {
    /// A signed integer.
    Sint,
    /// An unsigned integer.
    Uint,
    /// A floating-point number.
    Float,
    /// A boolean.
    Bool,
    /// An integer of a constant expression, not yet given a concrete type.
    AbstractInt,
    /// A float of a constant expression, not yet given a concrete type.
    AbstractFloat,
}

impl ScalarKind {
    /// Whether values of this kind are numbers.
    pub open spec fn numeric(self) -> bool {
        !(self is Bool)
    }

    /// Whether values of this kind are numbers: every kind but `Bool`.
    pub fn is_numeric(self) -> (r: bool)
        ensures
            r == self.numeric(),
    {
        match self {
            ScalarKind::Sint
            | ScalarKind::Uint
            | ScalarKind::Float
            | ScalarKind::AbstractInt
            | ScalarKind::AbstractFloat => true,
            ScalarKind::Bool => false,
        }
    }
}

/// A scalar type: a kind and a width in bytes.
#[derive(Clone, Copy, Debug, PartialEq, Eq, Structural)]
pub struct Scalar {
    pub kind: ScalarKind,
    pub width: u8,
}

} // verus!
