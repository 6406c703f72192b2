use vstd::prelude::*;

verus! {

/// Block traversal of mount points (including bind mounts) during path resolution.
pub const RESOLVE_NO_XDEV: u64 = 0x01;

/// Disallow resolution of magic links during path resolution.
pub const RESOLVE_NO_MAGICLINKS: u64 = 0x02;

/// Disallow resolution of all symbolic links during path resolution.
pub const RESOLVE_NO_SYMLINKS: u64 = 0x04;

/// Fail if path resolution would leave the starting directory.
pub const RESOLVE_BENEATH: u64 = 0x08;

/// Treat the starting directory as the root directory during path resolution.
pub const RESOLVE_IN_ROOT: u64 = 0x10;

/// Only succeed if the lookup can be served entirely from the kernel's lookup cache.
pub const RESOLVE_CACHED: u64 = 0x20;

/// The mask of every resolution flag that is defined.
pub const RESOLVE_ALL_BITS: u64 = 0x3f;

/// A set of flags that modify path resolution.
///
/// Only the bits of the six defined flags can ever be set.
#[derive(Clone, Copy, Debug, PartialEq, Eq, Structural)]
pub struct ResolveFlags {
    bits: u64,
}

impl View for ResolveFlags {
    type V = u64;

    closed spec fn view(&self) -> u64 {
        self.bits
    }
}

/// The bits that are set in `a` or in `b`.
pub open spec fn union_bits(a: u64, b: u64) -> u64 {
    a | b
}

/// Every bit set in `b` is also set in `a`.
pub open spec fn contains_bits(a: u64, b: u64) -> bool {
    a & b == b
}

impl ResolveFlags {
    /// Only bits of the defined flags are set.
    pub open spec fn wf(self) -> bool {
        self@ & !RESOLVE_ALL_BITS == 0
    }

    fn from_defined_bits(bits: u64) -> (r: ResolveFlags)
        requires
            bits & !RESOLVE_ALL_BITS == 0,
        ensures
            r@ == bits,
            r.wf(),
    {
        ResolveFlags { bits }
    }

    /// The empty set of flags.
    pub fn empty() -> (r: ResolveFlags)
        ensures
            r@ == 0,
            r.wf(),
    {
        assert(0u64 & !0x3fu64 == 0) by (bit_vector);
        ResolveFlags::from_defined_bits(0)
    }

    /// The set of all defined flags.
    pub fn all() -> (r: ResolveFlags)
        ensures
            r@ == RESOLVE_ALL_BITS,
            r.wf(),
    {
        assert(0x3fu64 & !0x3fu64 == 0) by (bit_vector);
        ResolveFlags::from_defined_bits(RESOLVE_ALL_BITS)
    }

    /// Block traversal of mount points (including bind mounts).
    pub fn no_xdev() -> (r: ResolveFlags)
        ensures
            r@ == RESOLVE_NO_XDEV,
            r.wf(),
    {
        assert(0x01u64 & !0x3fu64 == 0) by (bit_vector);
        ResolveFlags::from_defined_bits(RESOLVE_NO_XDEV)
    }

    /// Disallow resolution of magic links.
    pub fn no_magiclinks() -> (r: ResolveFlags)
        ensures
            r@ == RESOLVE_NO_MAGICLINKS,
            r.wf(),
    {
        assert(0x02u64 & !0x3fu64 == 0) by (bit_vector);
        ResolveFlags::from_defined_bits(RESOLVE_NO_MAGICLINKS)
    }

    /// Disallow resolution of all symbolic links.
    pub fn no_symlinks() -> (r: ResolveFlags)
        ensures
            r@ == RESOLVE_NO_SYMLINKS,
            r.wf(),
    {
        assert(0x04u64 & !0x3fu64 == 0) by (bit_vector);
        ResolveFlags::from_defined_bits(RESOLVE_NO_SYMLINKS)
    }

    /// Fail if path resolution would leave the starting directory.
    ///
    /// This currently implies `no_magiclinks`, but that may change: request that flag
    /// explicitly where magic links must not be resolved.
    pub fn beneath() -> (r: ResolveFlags)
        ensures
            r@ == RESOLVE_BENEATH,
            r.wf(),
    {
        assert(0x08u64 & !0x3fu64 == 0) by (bit_vector);
        ResolveFlags::from_defined_bits(RESOLVE_BENEATH)
    }

    /// Treat the starting directory as the root directory, like a temporary `chroot()`.
    ///
    /// This currently implies `no_magiclinks`, but that may change: request that flag
    /// explicitly where magic links must not be resolved.
    pub fn in_root() -> (r: ResolveFlags)
        ensures
            r@ == RESOLVE_IN_ROOT,
            r.wf(),
    {
        assert(0x10u64 & !0x3fu64 == 0) by (bit_vector);
        ResolveFlags::from_defined_bits(RESOLVE_IN_ROOT)
    }

    /// Only succeed if the open can be done with what the kernel's lookup cache holds.
    ///
    /// Added in Linux 5.12. Fails with `EAGAIN` where revalidation or I/O is needed.
    pub fn cached() -> (r: ResolveFlags)
        ensures
            r@ == RESOLVE_CACHED,
            r.wf(),
    {
        assert(0x20u64 & !0x3fu64 == 0) by (bit_vector);
        ResolveFlags::from_defined_bits(RESOLVE_CACHED)
    }

    /// The flags, keeping only the defined bits of `bits`.
    pub fn from_bits_truncate(bits: u64) -> (r: ResolveFlags)
        ensures
            r@ == bits & RESOLVE_ALL_BITS,
            r.wf(),
    {
        let b = bits & RESOLVE_ALL_BITS;
        assert((bits & 0x3fu64) & !0x3fu64 == 0) by (bit_vector);
        ResolveFlags::from_defined_bits(b)
    }

    /// The flags with exactly the bits `bits`, or `None` where an undefined bit is set.
    pub fn from_bits(bits: u64) -> (r: Option<ResolveFlags>)
        ensures
            r is Some <==> bits & !RESOLVE_ALL_BITS == 0,
            r matches Some(f) ==> f@ == bits && f.wf(),
    {
        if bits & !RESOLVE_ALL_BITS == 0 {
            Some(ResolveFlags::from_defined_bits(bits))
        } else {
            None
        }
    }

    /// The raw bit mask, as the kernel reads it.
    pub fn bits(&self) -> (r: u64)
        ensures
            r == self@,
    {
        self.bits
    }

    /// Whether no flag is set.
    pub fn is_empty(&self) -> (r: bool)
        ensures
            r == (self@ == 0),
    {
        self.bits == 0
    }

    /// The flags set in `self` or in `other`.
    pub fn union(self, other: ResolveFlags) -> (r: ResolveFlags)
        requires
            self.wf(),
            other.wf(),
        ensures
            r@ == union_bits(self@, other@),
            r.wf(),
    {
        let a = self.bits;
        let b = other.bits;
        assert((a | b) & !0x3fu64 == 0) by (bit_vector)
            requires
                a & !0x3fu64 == 0,
                b & !0x3fu64 == 0,
        ;
        ResolveFlags::from_defined_bits(a | b)
    }

    /// Add the flags of `other` to `self`.
    pub fn insert(&mut self, other: ResolveFlags)
        requires
            old(self).wf(),
            other.wf(),
        ensures
            final(self)@ == union_bits(old(self)@, other@),
            final(self).wf(),
    {
        *self = self.union(other);
    }

    /// Whether every flag of `other` is set in `self`.
    pub fn contains(&self, other: ResolveFlags) -> (r: bool)
        ensures
            r == contains_bits(self@, other@),
    {
        self.bits & other.bits == other.bits
    }
}

/// Two sets of flags with the same bits are the same value.
pub proof fn lemma_view_determines(a: ResolveFlags, b: ResolveFlags)
    ensures
        a@ == b@ <==> a == b,
{
}

/// Union with the empty set leaves a set of flags as it is; union is commutative and
/// associative.
pub proof fn lemma_union_laws(a: ResolveFlags, b: ResolveFlags, c: ResolveFlags)
    ensures
        union_bits(a@, 0) == a@,
        union_bits(0, a@) == a@,
        union_bits(a@, b@) == union_bits(b@, a@),
        union_bits(union_bits(a@, b@), c@) == union_bits(a@, union_bits(b@, c@)),
{
    let x = a@;
    let y = b@;
    let z = c@;
    assert(x | 0 == x && 0 | x == x) by (bit_vector);
    assert(x | y == y | x) by (bit_vector);
    assert((x | y) | z == x | (y | z)) by (bit_vector);
}

/// A union holds each of its operands, and is the least set that does.
pub proof fn lemma_union_contains(a: ResolveFlags, b: ResolveFlags, c: ResolveFlags)
    ensures
        contains_bits(union_bits(a@, b@), a@),
        contains_bits(union_bits(a@, b@), b@),
        contains_bits(c@, a@) && contains_bits(c@, b@) ==> contains_bits(c@, union_bits(a@, b@)),
{
    let x = a@;
    let y = b@;
    let z = c@;
    assert((x | y) & x == x && (x | y) & y == y) by (bit_vector);
    assert((z & x == x && z & y == y) ==> z & (x | y) == x | y) by (bit_vector);
}

} // verus!
