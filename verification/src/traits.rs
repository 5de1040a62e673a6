//! The traits that generated error types implement.

use crate::location::Location;
use core::fmt::{Debug, Display};
use core::hash::Hash;
use vstd::prelude::*;

verus! {

/// The interface of an error category type.
pub trait Category: Eq + PartialEq + Ord + PartialOrd + Debug + Display + Copy + Clone + Hash {
    /// The number of bits that the category takes in an error kind.
    const BITS: usize;

    /// The underlying Rust type.
    type R;

    /// Returns the name of the category.
    fn name(&self) -> &'static str;
}

/// The interface of an error kind type.
pub trait TightErrorKind: Copy + Clone + Eq + PartialEq + Ord + PartialOrd + Debug + Display + Hash {
    /// The number of bits that an error kind takes.
    const BITS: usize;

    /// The underlying Rust type.
    type R;

    /// The category type.
    type Category: Category<R = Self::R>;

    /// Returns the category of the error kind.
    fn category(&self) -> Self::Category;

    /// Returns the name of the error kind.
    fn name(&self) -> &'static str;

    /// Returns the value of the error kind.
    fn value(&self) -> Self::R;

    /// Creates an error kind from its value, `None` when no kind has it.
    fn from_value(value: Self::R) -> Option<Self>;
}

/// The interface of an error code type.
pub trait TightErrorCode: Copy + Clone + Eq + PartialEq + Ord + PartialOrd + Debug + Display + Hash {
    /// The number of bits that the category takes in an error code.
    const CATEGORY_BITS: usize;

    /// The number of bits that an error code takes.
    const KIND_BITS: usize;

    /// The number of categories.
    const CATEGORIES_COUNT: usize;

    /// The underlying Rust type.
    type ReprType;

    /// The category type.
    type CategoryType: Category<R = Self::ReprType>;

    /// Returns the category of the error code.
    fn category(&self) -> Self::CategoryType;

    /// Returns the name of the error code.
    fn name(&self) -> &'static str;

    /// Returns the value of the error code.
    fn value(&self) -> Self::ReprType;

    /// Creates an error code from its value, `None` when no code has it.
    fn from_value(value: Self::ReprType) -> Option<Self>;
}

/// The interface of an error type.
pub trait TightError: Debug + Display {
    /// The number of bits that the category takes in an error code.
    const CATEGORY_BITS: usize;

    /// The number of bits that an error code takes.
    const KIND_BITS: usize;

    /// The number of categories.
    const CATEGORIES_COUNT: usize;

    /// The underlying Rust type.
    type ReprType;

    /// The error code type.
    type CodeType: TightErrorCode<ReprType = Self::ReprType>;

    /// Returns the error code.
    fn code(&self) -> Self::CodeType;

    /// Returns the location where the error originated; undefined unless
    /// the error type records it.
    fn location(&self) -> (res: Location)
        default_ensures
            res.file@.len() == 0,
            res.line == 0,
    {
        Location::undefined()
    }
}

/// The interface of an error variant type: a type of its own for a single
/// error kind.
pub trait VariantType: Clone + Debug + Display {
    /// The underlying Rust type.
    type R;

    /// The category type.
    type Category: Category<R = Self::R>;

    /// The error kind type.
    type Kind: TightErrorKind<R = Self::R, Category = Self::Category>;

    /// The category of the error kind.
    const CATEGORY: Self::Category;

    /// The error kind.
    const KIND: Self::Kind;

    /// The name of the variant type.
    const NAME: &'static str;

    /// Returns the category of the error kind.
    fn category(&self) -> (res: Self::Category)
        default_ensures
            res == Self::CATEGORY,
    {
        Self::CATEGORY
    }

    /// Returns the error kind.
    fn kind(&self) -> (res: Self::Kind)
        default_ensures
            res == Self::KIND,
    {
        Self::KIND
    }

    /// Returns the name of the variant type.
    fn name(&self) -> (res: &'static str)
        default_ensures
            res == Self::NAME,
    {
        Self::NAME
    }
}

} // verus!
