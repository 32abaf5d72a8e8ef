use super::capabilities::Capabilities;
use super::error::WidthError;
use super::scalar::{Scalar, ScalarKind, BOOL_WIDTH};
use super::type_info::{PushConstantCompatibility, PushConstantError};
use vstd::prelude::*;

verus! {

/// Whether scalars of this kind and width exist and the capabilities allow
/// them: the one width that every set allows, or a wider or narrower one
/// whose capability is in the set.
pub open spec fn width_supported(scalar: Scalar, capabilities: Capabilities) -> bool {
    match scalar.kind {
        ScalarKind::Bool => scalar.width == BOOL_WIDTH,
        ScalarKind::Float => {
            ||| scalar.width == 4
            ||| scalar.width == 8 && capabilities.has(Capabilities::FLOAT64)
            ||| scalar.width == 2 && capabilities.has(Capabilities::SHADER_FLOAT16)
        },
        ScalarKind::Sint | ScalarKind::Uint => {
            ||| scalar.width == 4
            ||| scalar.width == 8 && capabilities.has(Capabilities::SHADER_INT64)
        },
        ScalarKind::AbstractInt | ScalarKind::AbstractFloat => false,
    }
}

/// The capability that scalars of this kind and width wait for, as the
/// error that names it; `None` where no capability would help.
pub open spec fn width_capability(scalar: Scalar) -> Option<WidthError> {
    match (scalar.kind, scalar.width) {
        (ScalarKind::Float, 8) => Some(
            WidthError::MissingCapability { name: "f64", flag: "FLOAT64" },
        ),
        (ScalarKind::Float, 2) => Some(
            WidthError::MissingCapability { name: "f16", flag: "FLOAT16" },
        ),
        (ScalarKind::Sint, 8) => Some(
            WidthError::MissingCapability { name: "i64", flag: "SHADER_INT64" },
        ),
        (ScalarKind::Uint, 8) => Some(
            WidthError::MissingCapability { name: "u64", flag: "SHADER_INT64" },
        ),
        _ => None,
    }
}

/// What the width check answers.
///
/// A supported scalar is accepted, and a half-precision float with the
/// remark that it cannot be a push constant. An abstract scalar is refused
/// as such; a scalar that waits for a capability, with that capability; any
/// other as invalid.
pub open spec fn width_checked(scalar: Scalar, capabilities: Capabilities) -> Result<
    PushConstantCompatibility,
    WidthError,
> {
    if scalar.kind is AbstractInt || scalar.kind is AbstractFloat {
        Err(WidthError::Abstract)
    } else if width_supported(scalar, capabilities) {
        if scalar.kind is Float && scalar.width == 2 {
            Ok(Err(PushConstantError::InvalidScalar(scalar)))
        } else {
            Ok(Ok(()))
        }
    } else {
        match width_capability(scalar) {
            Some(missing) => Err(missing),
            None => Err(WidthError::Invalid(scalar.kind, scalar.width)),
        }
    }
}

/// Decides whether the width of `scalar` is legal under `capabilities`, and
/// whether a type that holds the scalar can still be a push constant.
pub fn check_width(scalar: Scalar, capabilities: Capabilities) -> (r: Result<
    PushConstantCompatibility,
    WidthError,
>)
    ensures
        r == width_checked(scalar, capabilities),
        r is Ok <==> width_supported(scalar, capabilities),
        scalar.kind is AbstractInt || scalar.kind is AbstractFloat ==> r == Err::<
            PushConstantCompatibility,
            WidthError,
        >(WidthError::Abstract),
{
    match scalar.kind {
        ScalarKind::Bool => {
            if scalar.width == BOOL_WIDTH {
                Ok(Ok(()))
            } else {
                Err(WidthError::Invalid(scalar.kind, scalar.width))
            }
        },
        ScalarKind::Float => {
            if scalar.width == 8 {
                if capabilities.contains(Capabilities::FLOAT64) {
                    Ok(Ok(()))
                } else {
                    Err(WidthError::MissingCapability { name: "f64", flag: "FLOAT64" })
                }
            } else if scalar.width == 2 {
                if capabilities.contains(Capabilities::SHADER_FLOAT16) {
                    Ok(Err(PushConstantError::InvalidScalar(scalar)))
                } else {
                    Err(WidthError::MissingCapability { name: "f16", flag: "FLOAT16" })
                }
            } else if scalar.width == 4 {
                Ok(Ok(()))
            } else {
                Err(WidthError::Invalid(scalar.kind, scalar.width))
            }
        },
        ScalarKind::Sint => {
            if scalar.width == 8 {
                if capabilities.contains(Capabilities::SHADER_INT64) {
                    Ok(Ok(()))
                } else {
                    Err(WidthError::MissingCapability { name: "i64", flag: "SHADER_INT64" })
                }
            } else if scalar.width == 4 {
                Ok(Ok(()))
            } else {
                Err(WidthError::Invalid(scalar.kind, scalar.width))
            }
        },
        ScalarKind::Uint => {
            if scalar.width == 8 {
                if capabilities.contains(Capabilities::SHADER_INT64) {
                    Ok(Ok(()))
                } else {
                    Err(WidthError::MissingCapability { name: "u64", flag: "SHADER_INT64" })
                }
            } else if scalar.width == 4 {
                Ok(Ok(()))
            } else {
                Err(WidthError::Invalid(scalar.kind, scalar.width))
            }
        },
        ScalarKind::AbstractInt | ScalarKind::AbstractFloat => Err(WidthError::Abstract),
    }
}

} // verus!
