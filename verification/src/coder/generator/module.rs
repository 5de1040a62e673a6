//! The generator of one module: the layout of its error kinds and the
//! values that its code is made of.

use crate::coder::frozen_options::FrozenOptions;
use crate::coder::generator::bits::{lemma_masks_partition_kind_bits, spec_bits_result, spec_layout, Bits};
use crate::coder::generator::repr_type::ReprType;
use crate::errors::TbError;
use crate::spec::module::spec_max_errors;
use crate::spec::{ModuleSpec, Spec};
use vstd::arithmetic::power2::{lemma2_to64, lemma_pow2_strictly_increases, pow2};
use vstd::prelude::*;

verus! {

/// The generator of the code of one module.
pub struct ModuleGenerator<'a> {
    /// The options of the run.
    pub opts: &'a FrozenOptions,
    /// The specification the module belongs to.
    pub spec: &'a Spec,
    /// The module.
    pub module: &'a ModuleSpec,
    /// Whether the generated code starts with the module's doc comment.
    pub mod_doc: bool,
    /// The bit layout of the module's error kinds.
    pub bits: Bits,
}

/// Every category of the module has an error.
pub open spec fn categories_nonempty(m: ModuleSpec) -> bool {
    forall|i: int| 0 <= i < m.categories@.len() ==> #[trigger] m.categories@[i].errors@.len() > 0
}

impl<'a> ModuleGenerator<'a> {
    /// Creates the generator of `module`, which fails as
    /// [Bits::calculate] does.
    pub fn new(opts: &'a FrozenOptions, spec: &'a Spec, module: &'a ModuleSpec, mod_doc: bool) -> (res:
        Result<ModuleGenerator<'a>, TbError>)
        ensures
            match res {
                Ok(g) => {
                    &&& spec_bits_result(*module, Ok(g.bits))
                    &&& g.opts == opts
                    &&& g.spec == spec
                    &&& g.module == module
                    &&& g.mod_doc == mod_doc
                },
                Err(e) => spec_bits_result(*module, Err(e)),
            },
    {
        match Bits::calculate(spec, module) {
            Ok(bits) => Ok(ModuleGenerator { opts, spec, module, mod_doc, bits }),
            Err(e) => Err(e),
        }
    }

    /// The generator's layout fits its module.
    pub open spec fn wf(&self) -> bool {
        spec_max_errors(self.module.categories@) matches Some(m) && spec_layout(
            self.bits,
            self.module.categories@.len() as nat,
            m as nat,
        )
    }

    /// `v` is a value of the module's representation type.
    pub open spec fn fits(&self, v: nat) -> bool {
        v < pow2(self.bits.repr_type.spec_bits())
    }

    /// Returns `v` as a value of the module's representation type, `None`
    /// when it does not fit.
    pub fn u64_to_repr_type_literal(&self, v: u64) -> (res: Option<u64>)
        ensures
            res is Some <==> self.fits(v as nat),
            res matches Some(r) ==> r == v,
    {
        proof {
            lemma2_to64();
        }
        let fits = match self.bits.repr_type {
            ReprType::U8 => v <= 0xff,
            ReprType::U16 => v <= 0xffff,
            ReprType::U32 => v <= 0xffff_ffff,
            ReprType::U64 => true,
        };
        if fits {
            Some(v)
        } else {
            None
        }
    }

    /// Returns `v` as a value of the module's representation type, `None`
    /// when it does not fit.
    pub fn usize_to_repr_type_literal(&self, v: usize) -> (res: Option<u64>)
        ensures
            res is Some <==> self.fits(v as nat),
            res matches Some(r) ==> r == v,
    {
        proof {
            lemma2_to64();
        }
        if v as u128 > 0xffff_ffff_ffff_ffffu128 {
            return None;
        }
        self.u64_to_repr_type_literal(v as u64)
    }

    /// Returns the comparison of a category value with the largest one
    /// that the generated `from_value` makes: `==` when there is a single
    /// category, `<=` otherwise.
    pub fn category_max_comparison(&self) -> (res: &'static str)
        requires
            self.module.categories@.len() > 0,
        ensures
            self.module.categories@.len() == 1 ==> res@ == "=="@,
            self.module.categories@.len() > 1 ==> res@ == "<="@,
    {
        if self.module.category_max() == 0 {
            "=="
        } else {
            "<="
        }
    }

    /// Returns the largest variant value of each category: its number of
    /// errors less one.
    pub fn variant_maxes(&self) -> (res: Vec<u64>)
        requires
            self.wf(),
            categories_nonempty(*self.module),
        ensures
            res@.len() == self.module.categories@.len(),
            forall|i: int|
                0 <= i < res@.len() ==> #[trigger] res@[i] == self.module.categories@[i].errors@.len()
                    - 1,
            forall|i: int| 0 <= i < res@.len() ==> self.fits(#[trigger] res@[i] as nat),
    {
        let cats = &self.module.categories;
        let ghost m = spec_max_errors(cats@).unwrap() as nat;
        proof {
            lemma2_to64();
            lemma_masks_partition_kind_bits(self.bits, cats@.len() as nat, m);
            lemma_max_errors_bounds(cats@);
            if self.bits.variant < self.bits.repr_type.spec_bits() {
                lemma_pow2_strictly_increases(
                    self.bits.variant as nat,
                    self.bits.repr_type.spec_bits(),
                );
            }
        }
        let mut res: Vec<u64> = Vec::new();
        let mut i: usize = 0;
        while i < cats.len()
            invariant
                i <= cats@.len(),
                cats == &self.module.categories,
                categories_nonempty(*self.module),
                forall|j: int| 0 <= j < cats@.len() ==> #[trigger] cats@[j].errors@.len() <= m,
                m <= pow2(self.bits.variant as nat),
                pow2(self.bits.variant as nat) <= pow2(self.bits.repr_type.spec_bits()),
                pow2(self.bits.repr_type.spec_bits()) <= 0x1_0000_0000_0000_0000,
                res@.len() == i,
                forall|j: int| 0 <= j < i ==> #[trigger] res@[j] == cats@[j].errors@.len() - 1,
            decreases cats@.len() - i,
        {
            assert(cats@[i as int].errors@.len() > 0);
            let n = cats[i].errors.len() - 1;
            res.push(n as u64);
            i += 1;
        }
        res
    }

    /// Returns whether the module's error type implements
    /// `std::error::Error` (see [ModuleSpec::error_trait]).
    pub fn error_trait(&self) -> (res: bool)
        ensures
            res == (self.spec.main.no_std != Some(true) && crate::spec::module::flag_or(
                self.module.error_trait,
                crate::spec::definitions::DEFAULT_ERROR_TRAIT,
            )),
    {
        self.module.error_trait(self.spec.main.no_std)
    }
}

/// Every category has at most the largest number of errors.
proof fn lemma_max_errors_bounds(cats: Seq<crate::spec::CategorySpec>)
    requires
        cats.len() > 0,
    ensures
        spec_max_errors(cats) matches Some(m) && forall|j: int|
            0 <= j < cats.len() ==> #[trigger] cats[j].errors@.len() <= m,
    decreases cats.len(),
{
    if cats.len() > 1 {
        lemma_max_errors_bounds(cats.drop_last());
        assert forall|j: int| 0 <= j < cats.len() implies #[trigger] cats[j].errors@.len()
            <= spec_max_errors(cats).unwrap() by {
            if j < cats.len() - 1 {
                assert(cats[j] == cats.drop_last()[j]);
            }
        }
    }
}

} // verus!
