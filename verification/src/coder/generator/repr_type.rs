//! The unsigned integer types that hold an error kind.

use crate::errors::kinds::general::TOO_MANY_BITS;
use crate::errors::{fails_with, TbError};
use vstd::prelude::*;

verus! {

/// An underlying Rust type of generated error kinds.
#[derive(Clone, Copy, Debug, Eq, PartialEq, Structural, Ord, PartialOrd, Hash)]
pub enum ReprType {
    U8,
    U16,
    U32,
    U64,
}

/// The smallest type of at least `n_bits` bits, `None` beyond 64 bits.
pub open spec fn spec_repr_for(n_bits: nat) -> Option<ReprType> {
    if n_bits <= 8 {
        Some(ReprType::U8)
    } else if n_bits <= 16 {
        Some(ReprType::U16)
    } else if n_bits <= 32 {
        Some(ReprType::U32)
    } else if n_bits <= 64 {
        Some(ReprType::U64)
    } else {
        None
    }
}

impl ReprType {
    /// The width of the type in bits.
    pub open spec fn spec_bits(self) -> nat {
        match self {
            ReprType::U8 => 8,
            ReprType::U16 => 16,
            ReprType::U32 => 32,
            ReprType::U64 => 64,
        }
    }

    /// The Rust name of the type.
    pub open spec fn spec_name(self) -> Seq<char> {
        match self {
            ReprType::U8 => "u8"@,
            ReprType::U16 => "u16"@,
            ReprType::U32 => "u32"@,
            ReprType::U64 => "u64"@,
        }
    }

    /// Returns the Rust name of the type.
    pub fn name(&self) -> (res: &'static str)
        ensures
            res@ == self.spec_name(),
    {
        match self {
            ReprType::U8 => "u8",
            ReprType::U16 => "u16",
            ReprType::U32 => "u32",
            ReprType::U64 => "u64",
        }
    }

    /// Returns the width of the type in bits.
    pub fn bits(&self) -> (res: usize)
        ensures
            res == self.spec_bits(),
    {
        match self {
            ReprType::U8 => 8,
            ReprType::U16 => 16,
            ReprType::U32 => 32,
            ReprType::U64 => 64,
        }
    }

    /// Returns the smallest type of at least `n_bits` bits.
    ///
    /// Fails with `TOO_MANY_BITS` beyond 64 bits.
    pub fn from_n_bits(n_bits: usize) -> (res: Result<ReprType, TbError>)
        ensures
            res is Ok <==> n_bits <= 64,
            res matches Ok(t) ==> spec_repr_for(n_bits as nat) == Some(t),
            res is Err ==> fails_with(res, TOO_MANY_BITS),
    {
        if n_bits <= 8 {
            Ok(ReprType::U8)
        } else if n_bits <= 16 {
            Ok(ReprType::U16)
        } else if n_bits <= 32 {
            Ok(ReprType::U32)
        } else if n_bits <= 64 {
            Ok(ReprType::U64)
        } else {
            Err(TbError::new(TOO_MANY_BITS))
        }
    }

    /// Returns the name of the largest supported type.
    pub fn largest_type_name() -> (res: &'static str)
        ensures
            res@ == ReprType::U64.spec_name(),
    {
        ReprType::U64.name()
    }
}

/// The type chosen for a width fits the width, and no narrower type does.
pub proof fn lemma_repr_for_is_smallest(n_bits: nat)
    requires
        n_bits <= 64,
    ensures
        spec_repr_for(n_bits) is Some,
        n_bits <= spec_repr_for(n_bits).unwrap().spec_bits(),
        forall|u: ReprType|
            #[trigger] u.spec_bits() < spec_repr_for(n_bits).unwrap().spec_bits() ==> u.spec_bits()
                < n_bits,
{
}

} // verus!
