use vstd::prelude::*;

use crate::cyclic::{next_ord, prev_ord};
use crate::extract::{decl_names, extract_variant_list, fields_free, ExtractError, ItemData,
    ItemDecl};
use crate::parse::{input_name, input_variants, parse_variant_list, valid_macro_input, SyntaxError,
    SyntaxErrorKind, Token};
use crate::variant_list::VariantList;

verus! {

/// Everything the generated code depends on, computed from a variant list:
/// the name of the type, whether its definition is emitted at all, the
/// variant names, the sequential discriminants, the cyclic successor and
/// predecessor of each variant by name, and the cardinality constant. A
/// renderer turns this into source text; no decision is left to it.
#[derive(Debug, Clone, PartialEq, Eq)]
pub struct GeneratedOps {
    /// The identifier naming the enum type.
    pub name: String,
    /// Whether the enum definition itself is emitted (true only for the
    /// bracketed declaration form).
    pub define_type: bool,
    /// The variant names, in declared order.
    pub variants: Vec<String>,
    /// The discriminants, in the same order: the entry at index `i` is `i`.
    pub discriminants: Vec<usize>,
    /// The name of the cyclic successor of each variant, in the same order.
    pub nexts: Vec<String>,
    /// The name of the cyclic predecessor of each variant, in the same order.
    pub prevs: Vec<String>,
    /// The cardinality constant baked into the generated code.
    pub len: usize,
}

impl GeneratedOps {
    /// The operation suite generated for the enum `name` with the given
    /// variants: discriminants are the positions themselves, and the
    /// successor and predecessor tables pair each variant with its cyclic
    /// neighbours in declared order.
    pub open spec fn describes(self, name: String, variants: Seq<String>, define_type: bool) -> bool {
        let n = variants.len();
        &&& self.name == name
        &&& self.define_type == define_type
        &&& self.variants@ == variants
        &&& self.len == n
        &&& self.discriminants@.len() == n
        &&& (forall|i: int| 0 <= i < n ==> self.discriminants@[i] == i)
        &&& self.nexts@.len() == n
        &&& (forall|i: int| 0 <= i < n ==> self.nexts@[i] == variants[next_ord(i as nat, n) as int])
        &&& self.prevs@.len() == n
        &&& (forall|i: int| 0 <= i < n ==> self.prevs@[i] == variants[prev_ord(i as nat, n) as int])
    }
}

/// The discriminant of each variant: its 0-based position in declared order.
pub fn variants_ns(vs: &Vec<String>) -> (r: Vec<usize>)
    ensures
        r@.len() == vs@.len(),
        forall|i: int| 0 <= i < r@.len() ==> r@[i] == i,
{
    let n = vs.len();
    let mut r: Vec<usize> = Vec::new();
    let mut i: usize = 0;
    while i < n
        invariant
            i <= n,
            r@.len() == i,
            forall|j: int| 0 <= j < i ==> r@[j] == j,
        decreases n - i,
    {
        r.push(i);
        i = i + 1;
    }
    r
}

/// The cyclic successor of each variant, by name: the variant list rotated
/// left by one position.
pub fn variants_nexts(vs: &Vec<String>) -> (r: Vec<String>)
    ensures
        r@.len() == vs@.len(),
        forall|i: int|
            0 <= i < r@.len() ==> r@[i] == vs@[next_ord(i as nat, vs@.len()) as int],
{
    let n = vs.len();
    let mut r: Vec<String> = Vec::new();
    let mut i: usize = 0;
    while i < n
        invariant
            n == vs@.len(),
            i <= n,
            r@.len() == i,
            forall|j: int| 0 <= j < i ==> r@[j] == vs@[next_ord(j as nat, n as nat) as int],
        decreases n - i,
    {
        if i + 1 == n {
            r.push(vs[0].clone());
        } else {
            r.push(vs[i + 1].clone());
        }
        i = i + 1;
    }
    r
}

/// The cyclic predecessor of each variant, by name: the variant list rotated
/// right by one position.
pub fn variants_prevs(vs: &Vec<String>) -> (r: Vec<String>)
    requires
        vs@.len() >= 1,
    ensures
        r@.len() == vs@.len(),
        forall|i: int|
            0 <= i < r@.len() ==> r@[i] == vs@[prev_ord(i as nat, vs@.len()) as int],
{
    let n = vs.len();
    let mut r: Vec<String> = Vec::new();
    let mut i: usize = 0;
    while i < n
        invariant
            n == vs@.len(),
            n >= 1,
            i <= n,
            r@.len() == i,
            forall|j: int| 0 <= j < i ==> r@[j] == vs@[prev_ord(j as nat, n as nat) as int],
        decreases n - i,
    {
        if i == 0 {
            r.push(vs[n - 1].clone());
        } else {
            r.push(vs[i - 1].clone());
        }
        i = i + 1;
    }
    r
}

/// The code generator: a pure, total transformation from a well-formed
/// variant list to the full description of the generated code. It cannot
/// fail; every defect is detected upstream, at extraction.
pub fn generate(vl: VariantList) -> (g: GeneratedOps)
    requires
        vl.wf(),
    ensures
        g.describes(vl.name, vl.variants@, vl.define_type),
{
    let len = vl.variants.len();
    let discriminants = variants_ns(&vl.variants);
    let nexts = variants_nexts(&vl.variants);
    let prevs = variants_prevs(&vl.variants);
    GeneratedOps {
        name: vl.name,
        define_type: vl.define_type,
        variants: vl.variants,
        discriminants,
        nexts,
        prevs,
        len,
    }
}

/// The whole bracketed-declaration pipeline: parses
/// `TypeName => [ Variant, ... ]` and generates the enum definition together
/// with its operation suite. Succeeds exactly on well-formed declarations
/// that name at least one variant; a well-formed declaration with an empty
/// list is rejected as `EmptyVariantList` at the opening bracket, since the
/// cyclic operations would be undefined on an uninhabited type.
pub fn zero_indexed_enum_parse(tokens: &Vec<Token>) -> (r: Result<GeneratedOps, SyntaxError>)
    ensures
        r is Ok <==> (valid_macro_input(tokens@) && input_variants(tokens@).len() >= 1),
        r matches Ok(g) ==> g.describes(input_name(tokens@), input_variants(tokens@), true),
        r matches Err(e) ==> e.pos <= tokens@.len(),
        r matches Err(e) ==> (e.kind is EmptyVariantList <==> valid_macro_input(tokens@)),
{
    match parse_variant_list(tokens) {
        Err(e) => Err(e),
        Ok(vl) => {
            if vl.variants.len() == 0 {
                Err(SyntaxError { kind: SyntaxErrorKind::EmptyVariantList, pos: 2 })
            } else {
                Ok(generate(vl))
            }
        },
    }
}

/// The whole attribute / derive pipeline: extracts the variant list from an
/// already-declared enum and generates the operation suite, leaving the
/// caller's type definition untouched. Succeeds exactly on enums with at
/// least one variant and no variant fields; an enum with no variants is
/// rejected as `NoVariants`, since the cyclic operations would be undefined
/// on an uninhabited type.
pub fn zero_indexed_enum_derive_parse(decl: &ItemDecl) -> (r: Result<
    GeneratedOps,
    ExtractError,
>)
    ensures
        r is Ok <==> (decl.data matches ItemData::EnumData(vs) && fields_free(vs@)
            && vs@.len() >= 1),
        r matches Ok(g) ==> (decl.data matches ItemData::EnumData(vs) && g.describes(
            decl.name,
            decl_names(vs@),
            false,
        )),
        r matches Err(e) ==> {
            &&& (e is NotAnEnum <==> !(decl.data is EnumData))
            &&& (e is NoVariants <==> (decl.data matches ItemData::EnumData(vs) && fields_free(
                vs@,
            ) && vs@.len() == 0))
            &&& (e matches ExtractError::VariantHasFields { variant } ==> {
                &&& decl.data matches ItemData::EnumData(vs)
                &&& variant < vs@.len()
                &&& vs@[variant as int].field_count != 0
                &&& forall|j: int| 0 <= j < variant ==> vs@[j].field_count == 0
            })
        },
{
    match extract_variant_list(decl) {
        Err(e) => Err(e),
        Ok(vl) => {
            if vl.variants.len() == 0 {
                Err(ExtractError::NoVariants)
            } else {
                Ok(generate(vl))
            }
        },
    }
}

} // verus!
