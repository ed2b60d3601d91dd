use vstd::prelude::*;

verus! {

/// The normalized result of variant extraction: the identifier naming the enum type,
/// its variant names in declaration order, and whether the type definition
/// itself still has to be emitted (true only for the bracketed declaration
/// form; an attribute or derive on an existing enum keeps the caller's own
/// definition).
#[derive(Debug, Clone, PartialEq, Eq)]
pub struct VariantList {
    pub name: String,
    pub variants: Vec<String>,
    pub define_type: bool,
}

impl VariantList {
    /// Number of variants of the described enum.
    pub open spec fn card(self) -> nat {
        self.variants@.len()
    }

    /// A variant list is well formed when it names at least one variant.
    /// Extraction itself accepts an empty list; the cyclic operations and
    /// the generated tables are only defined over inhabited enums.
    pub open spec fn wf(self) -> bool {
        self.card() >= 1
    }
}

} // verus!
