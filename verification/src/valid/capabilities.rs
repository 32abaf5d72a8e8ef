use vstd::prelude::*;

verus! {

/// The optional features that the hosting runtime allows shaders to use.
///
/// The validator only asks whether a set holds given capabilities; it never
/// changes one.
#[derive(Clone, Copy, Debug, PartialEq, Eq, Structural)]
pub struct Capabilities {
    pub bits: u32,
}

impl Capabilities {
    /// Double-precision floats.
    pub const FLOAT64: u32 = 0x2;

    /// Queries against acceleration structures.
    pub const RAY_QUERY: u32 = 0x1000;

    /// Arrayed cube textures.
    pub const CUBE_ARRAY_TEXTURES: u32 = 0x4000;

    /// 64-bit integers.
    pub const SHADER_INT64: u32 = 0x8000;

    /// The `min` and `max` atomic operations on 64-bit integers.
    pub const SHADER_INT64_ATOMIC_MIN_MAX: u32 = 0x8_0000;

    /// Every atomic operation on 64-bit integers.
    pub const SHADER_INT64_ATOMIC_ALL_OPS: u32 = 0x10_0000;

    /// Atomic operations on 32-bit floats.
    pub const SHADER_FLOAT32_ATOMIC: u32 = 0x20_0000;

    /// Reading the vertex positions of a ray hit.
    pub const RAY_HIT_VERTEX_POSITION: u32 = 0x100_0000;

    /// Half-precision floats.
    pub const SHADER_FLOAT16: u32 = 0x200_0000;

    /// The set without any capability.
    pub fn empty() -> (r: Capabilities)
        ensures
            r.bits == 0,
    {
        Capabilities { bits: 0 }
    }

    /// The set whose capabilities are the bits of `bits`.
    pub fn from_bits(bits: u32) -> (r: Capabilities)
        ensures
            r.bits == bits,
    {
        Capabilities { bits }
    }

    /// Whether the set holds every capability of `required`.
    pub open spec fn has(self, required: u32) -> bool {
        self.bits & required == required
    }

    /// Whether the set holds at least one capability of `any`.
    pub open spec fn has_any(self, any: u32) -> bool {
        self.bits & any != 0
    }

    /// Whether the set holds every capability of `required`.
    pub fn contains(self, required: u32) -> (r: bool)
        ensures
            r == self.has(required),
    {
        self.bits & required == required
    }

    /// Whether the set holds at least one capability of `any`.
    pub fn intersects(self, any: u32) -> (r: bool)
        ensures
            r == self.has_any(any),
    {
        self.bits & any != 0
    }

    /// The set with the capabilities of `extra` added.
    pub fn with(self, extra: u32) -> (r: Capabilities)
        ensures
            r.bits == self.bits | extra,
    {
        Capabilities { bits: self.bits | extra }
    }
}

} // verus!
