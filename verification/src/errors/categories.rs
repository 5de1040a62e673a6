//! Error category constants.

use super::TbErrorCategory;
use vstd::prelude::*;

verus! {

/// General errors category.
pub const GENERAL: TbErrorCategory = TbErrorCategory::General;

} // verus!
