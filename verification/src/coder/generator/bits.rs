//! The bit layout of the error kinds of a module.
//!
//! An error kind value holds the category in its high bits and the variant
//! (the error's position within its category) in its low bits.

use crate::coder::generator::repr_type::{spec_repr_for, ReprType};
use crate::errors::kinds::general::{CATEGORY_REQUIRED, ERROR_REQUIRED, TOO_MANY_BITS};
use crate::errors::{fails_with, TbError};
use crate::spec::module::spec_max_errors;
use crate::spec::{ModuleSpec, Spec};
use vstd::arithmetic::power2::{lemma_pow2_adds, lemma_pow2_pos, lemma_pow2_strictly_increases,
    lemma_pow2_unfold, pow2};
use vstd::prelude::*;

verus! {

/// The bit layout of the error kinds of a module.
#[derive(Debug)]
pub struct Bits {
    /// number of category bits
    pub category: usize,
    /// number of variant bits
    pub variant: usize,
    /// number of kind bits: category + variant
    pub kind: usize,
    /// the mask of category bits
    pub category_mask: u64,
    /// the mask of variant bits
    pub variant_mask: u64,
    /// the representation type
    pub repr_type: ReprType,
}

/// `k` bits are the fewest that distinguish `n` values: 2^k reaches `n`
/// and 2^(k-1) does not.
pub open spec fn is_bit_width_for(n: nat, k: nat) -> bool {
    &&& pow2(k) >= n
    &&& (k == 0 || pow2((k - 1) as nat) < n)
}

/// The number of variant bits needed for the given number of errors in the
/// largest category: at least one bit.
pub open spec fn is_variant_width_for(n: nat, k: nat) -> bool {
    if n == 1 {
        k == 1
    } else {
        is_bit_width_for(n, k)
    }
}

/// The bit width for a number of values is unique.
pub proof fn lemma_bit_width_unique(n: nat, k1: nat, k2: nat)
    requires
        is_bit_width_for(n, k1),
        is_bit_width_for(n, k2),
    ensures
        k1 == k2,
{
    if k1 < k2 {
        if k1 < (k2 - 1) as nat {
            lemma_pow2_strictly_increases(k1, (k2 - 1) as nat);
        }
    } else if k2 < k1 {
        if k2 < (k1 - 1) as nat {
            lemma_pow2_strictly_increases(k2, (k1 - 1) as nat);
        }
    }
}

/// Computes 2^k for k up to 64.
fn pow2_u128(k: usize) -> (res: u128)
    requires
        k <= 64,
    ensures
        res == pow2(k as nat),
        res <= pow2(64),
{
    let mut p: u128 = 1;
    let mut i: usize = 0;
    proof {
        vstd::arithmetic::power2::lemma2_to64();
    }
    while i < k
        invariant
            i <= k <= 64,
            p == pow2(i as nat),
        decreases k - i,
    {
        proof {
            lemma_pow2_unfold((i + 1) as nat);
            if i + 1 < 64 {
                lemma_pow2_strictly_increases((i + 1) as nat, 64);
            }
            vstd::arithmetic::power2::lemma2_to64();
            vstd::arithmetic::power2::lemma2_to64_rest();
        }
        p = p * 2;
        i += 1;
    }
    proof {
        if k < 64 {
            lemma_pow2_strictly_increases(k as nat, 64);
        }
    }
    p
}

fn calc_n_bits(n: usize, name: &str) -> (res: Result<usize, TbError>)
    requires
        n >= 2,
    ensures
        res matches Ok(k) ==> (is_bit_width_for(n as nat, k as nat) && pow2(k as nat)
            <= usize::MAX),
        res is Err ==> fails_with(res, TOO_MANY_BITS) && forall|k: nat|
            is_bit_width_for(n as nat, k) ==> pow2(k) > usize::MAX,
{
    let mut k: usize = 0;
    let mut p: u128 = 1;
    proof {
        vstd::arithmetic::power2::lemma2_to64();
        vstd::arithmetic::power2::lemma2_to64();
        vstd::arithmetic::power2::lemma2_to64_rest();
    }
    while p < n as u128
        invariant
            n >= 2,
            k <= 64,
            p == pow2(k as nat),
            p >= 1,
            k == 0 || pow2((k - 1) as nat) < n,
            p <= pow2(64),
        decreases pow2(64) - p,
    {
        proof {
            lemma_pow2_unfold((k + 1) as nat);
            if k >= 64 {
                vstd::arithmetic::power2::lemma2_to64_rest();
                assert(false);
            }
            if k + 1 < 64 {
                lemma_pow2_strictly_increases((k + 1) as nat, 64);
            }
            vstd::arithmetic::power2::lemma2_to64_rest();
        }
        p = p * 2;
        k += 1;
    }
    if p > usize::MAX as u128 {
        proof {
            assert forall|k2: nat| is_bit_width_for(n as nat, k2) implies pow2(k2) > usize::MAX by {
                lemma_bit_width_unique(n as nat, k as nat, k2);
            }
        }
        Err(TbError::new(TOO_MANY_BITS))
    } else {
        Ok(k)
    }
}

fn calc_n_category_bits(n_categories: usize) -> (res: Result<usize, TbError>)
    ensures
        n_categories == 0 ==> fails_with(res, CATEGORY_REQUIRED),
        res matches Ok(k) ==> is_bit_width_for(n_categories as nat, k as nat),
        n_categories > 0 && res is Err ==> fails_with(res, TOO_MANY_BITS),
        n_categories > 0 && res is Err ==> forall|k: nat|
            is_bit_width_for(n_categories as nat, k) ==> pow2(k) > usize::MAX,
{
    if n_categories == 0 {
        Err(TbError::new(CATEGORY_REQUIRED))
    } else if n_categories == 1 {
        proof {
            vstd::arithmetic::power2::lemma2_to64();
        }
        Ok(0)
    } else {
        calc_n_bits(n_categories, "categories")
    }
}

fn calc_n_variant_bits(module: &ModuleSpec) -> (res: Result<usize, TbError>)
    ensures
        spec_max_errors(module.categories@) is None ==> fails_with(res, CATEGORY_REQUIRED),
        spec_max_errors(module.categories@) == Some(0usize) ==> fails_with(res, ERROR_REQUIRED),
        res matches Ok(k) ==> (spec_max_errors(module.categories@) matches Some(m)
            && is_variant_width_for(m as nat, k as nat) && k >= 1),
        res is Err && spec_max_errors(module.categories@) is Some && spec_max_errors(
            module.categories@,
        ).unwrap() > 0 ==> (fails_with(res, TOO_MANY_BITS) && forall|k: nat|
            is_bit_width_for(spec_max_errors(module.categories@).unwrap() as nat, k) ==> pow2(k)
                > usize::MAX),
{
    let n = match module.n_errors_in_largest_category() {
        Some(n) => n,
        None => {
            return Err(TbError::new(CATEGORY_REQUIRED));
        },
    };
    if n == 0 {
        Err(TbError::new(ERROR_REQUIRED))
    } else if n == 1 {
        Ok(1)
    } else {
        let r = calc_n_bits(n, "errors in largest category");
        proof {
            if let Ok(k) = r {
                if k == 0 {
                    vstd::arithmetic::power2::lemma2_to64();
                }
            }
        }
        r
    }
}

/// No bit width for `n` values stays within `usize`.
pub open spec fn width_overflows(n: nat) -> bool {
    forall|k: nat| is_bit_width_for(n, k) ==> pow2(k) > usize::MAX
}

/// The layout fits the given numbers of categories and of errors in the
/// largest category.
pub open spec fn spec_layout(b: Bits, n_categories: nat, max_errors: nat) -> bool {
    &&& is_bit_width_for(n_categories, b.category as nat)
    &&& is_variant_width_for(max_errors, b.variant as nat)
    &&& b.kind == b.category + b.variant
    &&& spec_repr_for(b.kind as nat) == Some(b.repr_type)
    &&& b.variant_mask == pow2(b.variant as nat) - 1
    &&& b.category_mask == (pow2(b.category as nat) - 1) * pow2(b.variant as nat)
}

/// Some layout fits `n_categories` categories and `max_errors` errors in
/// the largest category: its category and variant widths, each of whose
/// powers of two is a `usize`, add up to at most 64 bits.
pub open spec fn layout_fits(n_categories: nat, max_errors: nat) -> bool {
    exists|c: nat, v: nat|
        #![trigger is_bit_width_for(n_categories, c), is_variant_width_for(max_errors, v)]
        is_bit_width_for(n_categories, c) && is_variant_width_for(max_errors, v) && c + v <= 64
            && pow2(c) <= usize::MAX && pow2(v) <= usize::MAX
}

/// What [Bits::calculate] gives for a module: `CATEGORY_REQUIRED` when it
/// has no category, `ERROR_REQUIRED` when its largest category has no error
/// (and the categories fit), a layout that fits the module whenever one
/// does, and `TOO_MANY_BITS` otherwise.
pub open spec fn spec_bits_result(module: ModuleSpec, res: Result<Bits, TbError>) -> bool {
    &&& module.categories@.len() > 0 && (spec_max_errors(module.categories@) matches Some(m)
        && m > 0 && layout_fits(module.categories@.len() as nat, m as nat)) ==> res is Ok
    &&& module.categories@.len() == 0 ==> fails_with(res, CATEGORY_REQUIRED)
    &&& spec_max_errors(module.categories@) == Some(0usize) && !width_overflows(
        module.categories@.len() as nat,
    ) ==> fails_with(res, ERROR_REQUIRED)
    &&& res matches Ok(b) ==> (spec_max_errors(module.categories@) matches Some(m) && spec_layout(
        b,
        module.categories@.len() as nat,
        m as nat,
    ))
    &&& res is Err && module.categories@.len() > 0 && spec_max_errors(module.categories@) != Some(
        0usize,
    ) ==> fails_with(res, TOO_MANY_BITS)
}

impl Bits {
    /// Calculates the bit layout of a module's error kinds.
    ///
    /// Fails with `CATEGORY_REQUIRED` when the module has no category, with
    /// `ERROR_REQUIRED` when its largest category has no error, and with
    /// `TOO_MANY_BITS` when the kinds need more than 64 bits.
    pub fn calculate(_spec: &Spec, module: &ModuleSpec) -> (res: Result<Bits, TbError>)
        ensures
            spec_bits_result(*module, res),
    {
        let n_categories = module.categories.len();
        let ghost fits = n_categories > 0 && (spec_max_errors(module.categories@) matches Some(m)
            && m > 0 && layout_fits(n_categories as nat, m as nat));
        let n_category_bits = match calc_n_category_bits(n_categories) {
            Ok(k) => k,
            Err(e) => {
                return Err(e);
            },
        };
        let n_variant_bits = match calc_n_variant_bits(module) {
            Ok(k) => k,
            Err(e) => {
                proof {
                    if fits {
                        let m = spec_max_errors(module.categories@).unwrap() as nat;
                        let (c, v) = choose|c: nat, v: nat|
                            #![trigger is_bit_width_for(n_categories as nat, c), is_variant_width_for(m, v)]
                            is_bit_width_for(n_categories as nat, c) && is_variant_width_for(m, v)
                                && c + v <= 64 && pow2(c) <= usize::MAX && pow2(v) <= usize::MAX;
                        if m == 1 {
                            vstd::arithmetic::power2::lemma2_to64();
                            assert(is_bit_width_for(m, 0));
                        } else {
                            assert(is_bit_width_for(m, v));
                        }
                    }
                }
                return Err(e);
            },
        };
        proof {
            if fits {
                let m = spec_max_errors(module.categories@).unwrap() as nat;
                let (c, v) = choose|c: nat, v: nat|
                    #![trigger is_bit_width_for(n_categories as nat, c), is_variant_width_for(m, v)]
                    is_bit_width_for(n_categories as nat, c) && is_variant_width_for(m, v) && c
                        + v <= 64 && pow2(c) <= usize::MAX && pow2(v) <= usize::MAX;
                lemma_bit_width_unique(n_categories as nat, c, n_category_bits as nat);
                if m != 1 {
                    lemma_bit_width_unique(m, v, n_variant_bits as nat);
                }
            }
        }
        if n_category_bits > 64 || n_variant_bits > 64 {
            return Err(TbError::new(TOO_MANY_BITS));
        }
        let n_kind_bits = n_category_bits + n_variant_bits;
        let repr_type = match ReprType::from_n_bits(n_kind_bits) {
            Ok(t) => t,
            Err(e) => {
                return Err(e);
            },
        };
        let p_var = pow2_u128(n_variant_bits);
        let p_cat = pow2_u128(n_category_bits);
        proof {
            lemma_pow2_pos(n_variant_bits as nat);
            lemma_pow2_pos(n_category_bits as nat);
            lemma_pow2_adds(n_category_bits as nat, n_variant_bits as nat);
            if n_kind_bits < 64 {
                lemma_pow2_strictly_increases(n_kind_bits as nat, 64);
            }
            vstd::arithmetic::power2::lemma2_to64_rest();
            assert((p_cat - 1) * p_var == p_cat * p_var - p_var) by (nonlinear_arith);
        }
        let variant_mask = (p_var - 1) as u64;
        let category_mask = ((p_cat - 1) * p_var) as u64;
        Ok(
            Bits {
                category: n_category_bits,
                variant: n_variant_bits,
                kind: n_kind_bits,
                category_mask,
                variant_mask,
                repr_type,
            },
        )
    }
}

/// The category and variant masks of a layout are disjoint and together
/// cover exactly the kind bits: the variant mask holds the low bits and the
/// category mask the bits above them.
pub proof fn lemma_masks_partition_kind_bits(b: Bits, n_categories: nat, max_errors: nat)
    requires
        spec_layout(b, n_categories, max_errors),
    ensures
        b.variant_mask < pow2(b.variant as nat),
        (b.category_mask as nat) % pow2(b.variant as nat) == 0,
        b.category_mask + b.variant_mask == pow2(b.kind as nat) - 1,
        b.kind <= b.repr_type.spec_bits(),
        n_categories <= pow2(b.category as nat),
        max_errors <= pow2(b.variant as nat),
{
    lemma_pow2_pos(b.variant as nat);
    lemma_pow2_pos(b.category as nat);
    lemma_pow2_adds(b.category as nat, b.variant as nat);
    let pv = pow2(b.variant as nat) as int;
    let pc = pow2(b.category as nat) as int;
    assert((pc - 1) * pv == pc * pv - pv) by (nonlinear_arith);
    vstd::arithmetic::div_mod::lemma_mod_multiples_basic(pc - 1, pv);
    if max_errors == 1 {
        lemma_pow2_unfold(1);
        vstd::arithmetic::power2::lemma2_to64();
    }
}

/// The value of the error kind of variant `var` in category `cat`: the
/// category in the high bits and the variant in the low bits.
pub open spec fn spec_kind_value(b: Bits, cat: nat, var: nat) -> nat {
    cat * pow2(b.variant as nat) + var
}

/// An error kind value identifies its category and variant: for a layout
/// that fits a module, the value of every category and variant of the
/// module fits the kind bits, the variant is the value's low bits (the
/// value masked with the variant mask) and the category its high bits (the
/// value shifted right by the variant bits), so distinct categories or
/// variants never share a value.
pub proof fn lemma_kind_value_identifies_error(
    b: Bits,
    n_categories: nat,
    max_errors: nat,
    cat: nat,
    var: nat,
    cat2: nat,
    var2: nat,
)
    requires
        spec_layout(b, n_categories, max_errors),
        cat < n_categories,
        var < max_errors,
        cat2 < n_categories,
        var2 < max_errors,
    ensures
        spec_kind_value(b, cat, var) < pow2(b.kind as nat),
        spec_kind_value(b, cat, var) % pow2(b.variant as nat) == var,
        spec_kind_value(b, cat, var) / pow2(b.variant as nat) == cat,
        b.variant < 64 ==> (spec_kind_value(b, cat, var) as u64) & b.variant_mask == var,
        b.variant < 64 ==> (spec_kind_value(b, cat, var) as u64) >> (b.variant as u64) == cat,
        spec_kind_value(b, cat, var) == spec_kind_value(b, cat2, var2) ==> cat == cat2 && var
            == var2,
{
    lemma_masks_partition_kind_bits(b, n_categories, max_errors);
    let pv = pow2(b.variant as nat) as int;
    let pc = pow2(b.category as nat) as int;
    let v = spec_kind_value(b, cat, var) as int;
    lemma_pow2_pos(b.variant as nat);
    lemma_pow2_adds(b.category as nat, b.variant as nat);
    assert(cat * pv + var < pc * pv) by (nonlinear_arith)
        requires
            cat < pc,
            var < pv,
    ;
    vstd::arithmetic::div_mod::lemma_fundamental_div_mod_converse(v, pv, cat as int, var as int);
    vstd::arithmetic::div_mod::lemma_fundamental_div_mod_converse(
        spec_kind_value(b, cat2, var2) as int,
        pv,
        cat2 as int,
        var2 as int,
    );
    if b.variant < 64 {
        vstd::arithmetic::power2::lemma2_to64();
        vstd::arithmetic::power2::lemma2_to64_rest();
        if b.kind < 64 {
            lemma_pow2_strictly_increases(b.kind as nat, 64);
        }
        let x = v as u64;
        vstd::bits::lemma_u64_low_bits_mask_is_mod(x, b.variant as nat);
        vstd::bits::lemma_u64_shr_is_div(x, b.variant as u64);
    }
}

/// A module with a single category spends no bit on categories: the value
/// of an error kind is then its variant.
pub proof fn lemma_single_category_takes_no_bits(b: Bits, max_errors: nat)
    requires
        spec_layout(b, 1, max_errors),
    ensures
        b.category == 0,
        b.kind == b.variant,
        b.category_mask == 0,
        forall|var: nat| #[trigger] spec_kind_value(b, 0, var) == var,
{
    if b.category > 0 {
        lemma_pow2_pos((b.category - 1) as nat);
    }
    vstd::arithmetic::power2::lemma2_to64();
    assert(b.category_mask == 0 * pow2(b.variant as nat));
}

} // verus!
