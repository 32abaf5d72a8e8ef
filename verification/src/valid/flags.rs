use vstd::prelude::*;

verus! {

/// The properties of a validated type, one bit each.
///
/// The eight bits are independent. A composite type gets the properties
/// that its variant grants, less those that one of its parts lacks.
#[derive(Clone, Copy, Debug, PartialEq, Eq, Structural)]
pub struct TypeFlags {
    pub bits: u8,
}

impl TypeFlags {
    /// Can be stored: in a variable, an argument, an array element, a member.
    pub const DATA: u8 = 0x1;

    /// The size is known when the pipeline is created.
    pub const SIZED: u8 = 0x2;

    /// Can be copied bit by bit.
    pub const COPY: u8 = 0x4;

    /// Can pass from one pipeline stage to the next.
    pub const IO_SHAREABLE: u8 = 0x8;

    /// Can live in memory that the host sees.
    pub const HOST_SHAREABLE: u8 = 0x10;

    /// The size is known when the shader is created: no override is pending.
    pub const CREATION_RESOLVED: u8 = 0x20;

    /// Can be passed to a function.
    pub const ARGUMENT: u8 = 0x40;

    /// Can be built by a value constructor.
    pub const CONSTRUCTIBLE: u8 = 0x80;

    /// The set without any flag.
    pub fn empty() -> (r: TypeFlags)
        ensures
            r.bits == 0,
    {
        TypeFlags { bits: 0 }
    }

    /// The set with every flag.
    pub fn all() -> (r: TypeFlags)
        ensures
            r.bits == 0xff,
    {
        TypeFlags { bits: 0xff }
    }

    /// The set whose flags are the bits of `bits`. Every bit is a flag, so
    /// none is dropped.
    pub fn from_bits(bits: u8) -> (r: TypeFlags)
        ensures
            r.bits == bits,
    {
        TypeFlags { bits }
    }

    /// The flags as bits.
    pub fn bits(self) -> (r: u8)
        ensures
            r == self.bits,
    {
        self.bits
    }

    /// Whether no flag is set.
    pub fn is_empty(self) -> (r: bool)
        ensures
            r == (self.bits == 0),
    {
        self.bits == 0
    }

    /// Whether every flag of `required` is set in `self`.
    pub open spec fn has(self, required: u8) -> bool {
        self.bits & required == required
    }

    /// Sets or clears the flags of `mask`.
    pub fn set(&mut self, mask: u8, value: bool)
        ensures
            final(self).bits == (if value {
                old(self).bits | mask
            } else {
                old(self).bits & !mask
            }),
    {
        if value {
            self.bits = self.bits | mask;
        } else {
            self.bits = self.bits & !mask;
        }
    }
}

/// The flags that are in both sets.
pub fn flags_intersect(a: TypeFlags, b: TypeFlags) -> (r: TypeFlags)
    ensures
        r.bits == a.bits & b.bits,
{
    TypeFlags { bits: a.bits & b.bits }
}

/// The flags that are in either set.
pub fn flags_union(a: TypeFlags, b: TypeFlags) -> (r: TypeFlags)
    ensures
        r.bits == a.bits | b.bits,
{
    TypeFlags { bits: a.bits | b.bits }
}

/// Whether `flags` has every flag of `required`.
pub fn flags_contains(flags: TypeFlags, required: u8) -> (r: bool)
    ensures
        r == flags.has(required),
{
    flags.bits & required == required
}

} // verus!
