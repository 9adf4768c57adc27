//! A generic three-field record and the number of bytes the platform gives
//! its values.
//!
//! How a struct is laid out is the compiler's choice, so no byte count is
//! fixed here. What holds on every platform is stated instead: a record is at
//! least as large as its fields taken together, and its size is a multiple of
//! the largest alignment that any field asks for.

use vstd::arithmetic::div_mod::{lemma_fundamental_div_mod, lemma_mod_multiples_basic};
use vstd::arithmetic::power2::is_pow2;
use vstd::layout::{align_of, size_of};
use vstd::prelude::*;

verus! {

/// A two-byte counter followed by two fields of caller-chosen types.
pub struct Foo<T, U> {
    pub count: u16,
    pub data1: T,
    pub data2: U,
}

/// The record with the narrower of the two payload types first.
pub type NarrowFirst = Foo<u16, u32>;

/// The record with the wider of the two payload types first.
pub type WideFirst = Foo<u32, u16>;

/// The larger of two numbers.
pub open spec fn larger(a: nat, b: nat) -> nat {
    if a >= b {
        a
    } else {
        b
    }
}

impl<T, U> Foo<T, U> {
    /// Trusted: `core::mem::size_of_val`, called on the record.
    ///
    /// Assumed of it, not proved: for a value of a sized type it returns the
    /// size of the type; and that size is no less than the sizes of the three
    /// fields added up, because Rust lays the fields of a struct out so that
    /// no two of them overlap.
    #[verifier::external_body]
    fn size_of_val(&self) -> (bytes: usize)
        ensures
            bytes as nat == size_of::<Self>(),
            bytes as nat >= size_of::<u16>() + size_of::<T>() + size_of::<U>(),
    {
        core::mem::size_of_val(self)
    }

    /// Trusted: `core::mem::align_of_val`, called on the record.
    ///
    /// Assumed of it, not proved: for a value of a sized type it returns the
    /// alignment of the type; and Rust gives a struct an alignment that is no
    /// less than the alignment of any of its fields.
    #[verifier::external_body]
    fn align_of_val(&self) -> (bytes: usize)
        ensures
            bytes as nat == align_of::<Self>(),
            bytes as nat >= align_of::<u16>(),
            bytes as nat >= align_of::<T>(),
            bytes as nat >= align_of::<U>(),
    {
        core::mem::align_of_val(self)
    }

    /// The sizes of the three fields, added up.
    pub open spec fn fields_size() -> nat {
        size_of::<u16>() + size_of::<T>() + size_of::<U>()
    }

    /// The largest alignment that any of the three fields asks for.
    pub open spec fn fields_align() -> nat {
        larger(align_of::<u16>(), larger(align_of::<T>(), align_of::<U>()))
    }

    /// The number of bytes that the record occupies in memory, padding
    /// included.
    ///
    /// The alignment is read for the proof alone: the size is a multiple of
    /// the record's own alignment, and every field's alignment, being a
    /// smaller power of two, divides that.
    pub fn size(&self) -> (bytes: usize)
        ensures
            bytes as nat == size_of::<Self>(),
            bytes as nat >= Self::fields_size(),
            Self::fields_align() > 0,
            bytes as nat % Self::fields_align() == 0,
    {
        let bytes = self.size_of_val();
        let align = self.align_of_val();
        proof {
            broadcast use vstd::layout::group_align_properties;

            lemma_multiple_of_smaller_pow2(
                bytes as int,
                align as int,
                Self::fields_align() as int,
            );
        }
        bytes
    }
}

/// Builds one record of each ordering, every field set to one, and returns
/// the two sizes: that of the narrow-first record, then that of the
/// wide-first one.
pub fn probe() -> (sizes: (usize, usize))
    ensures
        sizes.0 as nat == size_of::<NarrowFirst>(),
        sizes.1 as nat == size_of::<WideFirst>(),
        NarrowFirst::fields_size() == 8 && WideFirst::fields_size() == 8,
        sizes.0 >= 8 && sizes.1 >= 8,
        NarrowFirst::fields_align() == WideFirst::fields_align() > 0,
        sizes.0 as nat % NarrowFirst::fields_align() == 0,
        sizes.1 as nat % WideFirst::fields_align() == 0,
{
    let foo1: NarrowFirst = Foo { count: 1, data1: 1, data2: 1 };
    let foo2: WideFirst = Foo { count: 1, data1: 1, data2: 1 };
    (foo1.size(), foo2.size())
}

/// Of two powers of two, the smaller divides the larger.
proof fn lemma_pow2_divides(small: int, large: int)
    requires
        is_pow2(small),
        is_pow2(large),
        small <= large,
    ensures
        large % small == 0,
    decreases small,
{
    reveal(is_pow2);
    if small > 1 {
        let half_small = small / 2;
        let half_large = large / 2;
        lemma_pow2_divides(half_small, half_large);
        let k = half_large / half_small;
        lemma_fundamental_div_mod(half_large, half_small);
        assert(large == k * small && small > 0) by (nonlinear_arith)
            requires
                half_large == half_small * k,
                small == 2 * half_small,
                large == 2 * half_large,
                half_small > 0,
        ;
        lemma_mod_multiples_basic(k, small);
    }
}

/// A multiple of a power of two is a multiple of every smaller power of two.
proof fn lemma_multiple_of_smaller_pow2(n: int, large: int, small: int)
    requires
        is_pow2(small),
        is_pow2(large),
        small <= large,
        n % large == 0,
    ensures
        n % small == 0,
{
    reveal(is_pow2);
    lemma_pow2_divides(small, large);
    let k = large / small;
    let m = n / large;
    lemma_fundamental_div_mod(large, small);
    lemma_fundamental_div_mod(n, large);
    assert(n == (m * k) * small) by (nonlinear_arith)
        requires
            n == large * m,
            large == small * k,
    ;
    lemma_mod_multiples_basic(m * k, small);
}

} // verus!
