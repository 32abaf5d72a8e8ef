use vstd::prelude::*;

verus! {

/// Whether `n` is 1, 2, 4, 8, ...
pub open spec fn is_power_of_two(n: nat) -> bool
    decreases n,
{
    n == 1 || (n >= 2 && n % 2 == 0 && is_power_of_two(n / 2))
}

/// Whether `m` is a multiple of `align`.
pub open spec fn is_multiple(m: int, align: int) -> bool {
    m % align == 0
}

/// The least multiple of `align` that is not below `n`.
pub open spec fn round_up_to(align: int, n: int) -> int
    recommends
        align > 0,
        n >= 0,
{
    if n % align == 0 {
        n
    } else {
        n + (align - n % align)
    }
}

/// How many elements a vector has.
#[derive(Clone, Copy, Debug, PartialEq, Eq, Structural)]
pub enum VectorSize {
    /// Two elements.
    Bi,
    /// Three elements.
    Tri,
    /// Four elements.
    Quad,
}

/// A power of two, in bytes, of which the address of a value must be a
/// multiple.
#[derive(Clone, Copy, Debug, PartialEq, Eq, Structural)]
pub struct Alignment {
    pub value: u32,
}

impl Alignment {
    /// The least alignment that the uniform layout accepts for array elements
    /// and struct members.
    pub const MIN_UNIFORM: u32 = 16;

    /// An alignment is valid when it is a power of two.
    pub open spec fn wf(self) -> bool {
        is_power_of_two(self.value as nat)
    }

    /// The alignment of a vector of `size` elements, counted in elements.
    pub open spec fn of_vector_size(size: VectorSize) -> Alignment {
        match size {
            VectorSize::Bi => Alignment { value: 2 },
            VectorSize::Tri => Alignment { value: 4 },
            VectorSize::Quad => Alignment { value: 4 },
        }
    }

    /// Whether `n` is a multiple of the alignment.
    pub open spec fn aligns(self, n: u32) -> bool {
        n as int % self.value as int == 0
    }

    /// The greater of two alignments.
    pub open spec fn join(self, other: Alignment) -> Alignment {
        if self.value >= other.value {
            self
        } else {
            other
        }
    }

    /// The alignment of one byte, which every offset meets.
    pub fn one() -> (r: Alignment)
        ensures
            r.value == 1,
            r.wf(),
    {
        Alignment { value: 1 }
    }

    /// The least alignment of the uniform layout: sixteen bytes.
    pub fn min_uniform() -> (r: Alignment)
        ensures
            r.value == Alignment::MIN_UNIFORM,
            r.wf(),
    {
        proof {
            lemma_small_powers();
        }
        Alignment { value: 16 }
    }

    /// The alignment of `n` bytes, if `n` is a power of two.
    pub fn new(n: u32) -> (r: Option<Alignment>)
        ensures
            r == (if is_power_of_two(n as nat) {
                Some(Alignment { value: n })
            } else {
                None
            }),
    {
        if n == 0 {
            return None;
        }
        let mut m: u32 = n;
        while m % 2 == 0
            invariant
                m >= 1,
                is_power_of_two(m as nat) == is_power_of_two(n as nat),
            decreases m,
        {
            m = m / 2;
        }
        if m == 1 {
            Some(Alignment { value: n })
        } else {
            None
        }
    }

    /// Whether the alignment is valid: a power of two.
    pub fn is_valid(self) -> (r: bool)
        ensures
            r == self.wf(),
    {
        Alignment::new(self.value).is_some()
    }

    /// The alignment of a scalar that is `width` bytes wide.
    pub fn from_width(width: u8) -> (r: Alignment)
        requires
            is_power_of_two(width as nat),
        ensures
            r.value == width,
            r.wf(),
    {
        Alignment { value: width as u32 }
    }

    /// The alignment of a vector of `size` elements, counted in elements:
    /// a vector of three is aligned as one of four.
    pub fn from_vector_size(size: VectorSize) -> (r: Alignment)
        ensures
            r == Alignment::of_vector_size(size),
            r.wf(),
    {
        proof {
            lemma_small_powers();
        }
        match size {
            VectorSize::Bi => Alignment { value: 2 },
            VectorSize::Tri => Alignment { value: 4 },
            VectorSize::Quad => Alignment { value: 4 },
        }
    }

    /// The alignment in bytes.
    pub fn get(self) -> (r: u32)
        ensures
            r == self.value,
    {
        self.value
    }

    /// Whether `n` is a multiple of the alignment.
    pub fn is_aligned(self, n: u32) -> (r: bool)
        requires
            self.wf(),
        ensures
            r == self.aligns(n),
    {
        n % self.value == 0
    }

    /// The least multiple of the alignment that is not below `n`. It can
    /// exceed `u32::MAX`, by less than the alignment.
    pub fn round_up(self, n: u32) -> (r: u64)
        requires
            self.wf(),
        ensures
            r == round_up_to(self.value as int, n as int),
            n <= r < n + self.value,
            r as int % self.value as int == 0,
    {
        let rem: u32 = n % self.value;
        proof {
            lemma_round_up_is_multiple(self.value as int, n as int);
        }
        if rem == 0 {
            n as u64
        } else {
            n as u64 + (self.value - rem) as u64
        }
    }

    /// The greater of two alignments, which both are divisors of.
    pub fn max(self, other: Alignment) -> (r: Alignment)
        ensures
            r == self.join(other),
            self.wf() && other.wf() ==> r.wf(),
    {
        if self.value >= other.value {
            self
        } else {
            other
        }
    }

    /// The product of two alignments, for a vector of aligned elements.
    pub fn times(self, rhs: Alignment) -> (r: Alignment)
        requires
            self.wf(),
            rhs.wf(),
            self.value * rhs.value <= u32::MAX,
        ensures
            r.value == self.value * rhs.value,
            r.wf(),
    {
        proof {
            lemma_product_is_power_of_two(self.value as nat, rhs.value as nat);
        }
        Alignment { value: self.value * rhs.value }
    }
}

/// 1, 2, 4, 8, 16 and 32 are powers of two.
pub proof fn lemma_small_powers()
    ensures
        is_power_of_two(1),
        is_power_of_two(2),
        is_power_of_two(4),
        is_power_of_two(8),
        is_power_of_two(16),
        is_power_of_two(32),
{
    reveal_with_fuel(is_power_of_two, 7);
}

/// The product of two powers of two is a power of two.
pub proof fn lemma_product_is_power_of_two(a: nat, b: nat)
    requires
        is_power_of_two(a),
        is_power_of_two(b),
    ensures
        is_power_of_two(a * b),
    decreases a,
{
    if a == 1 {
        assert(a * b == b) by (nonlinear_arith)
            requires
                a == 1,
        ;
    } else {
        let h = a / 2;
        lemma_product_is_power_of_two(h, b);
        assert(a == 2 * h);
        assert(a * b == 2 * (h * b)) by (nonlinear_arith)
            requires
                a == 2 * h,
        ;
        assert(b >= 1);
        assert(h * b >= 1) by (nonlinear_arith)
            requires
                h >= 1,
                b >= 1,
        ;
        assert((a * b) % 2 == 0);
        assert((a * b) / 2 == h * b);
    }
}

/// `round_up_to(align, n)` is a multiple of `align`, at least `n` and less
/// than `n + align`, and no multiple of `align` lies between `n` and it.
pub proof fn lemma_round_up_is_multiple(align: int, n: int)
    requires
        align > 0,
        n >= 0,
    ensures
        round_up_to(align, n) % align == 0,
        n <= round_up_to(align, n) < n + align,
        forall|m: int| n <= m < round_up_to(align, n) ==> !#[trigger] is_multiple(m, align),
{
    let r = n % align;
    let up = round_up_to(align, n);
    assert(0 <= r < align);
    if r != 0 {
        assert(up % align == 0) by (nonlinear_arith)
            requires
                align > 0,
                r == n % align,
                up == n + (align - r),
        ;
        assert forall|m: int| n <= m < up implies !#[trigger] is_multiple(m, align) by {
            assert(m % align != 0) by (nonlinear_arith)
                requires
                    align > 0,
                    n <= m < n + (align - n % align),
                    n % align != 0,
                    n >= 0,
            ;
        }
    }
}

} // verus!
