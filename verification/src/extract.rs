use vstd::prelude::*;

use crate::variant_list::VariantList;

verus! {

/// One variant of an already-declared enum, as the macro front end reads it:
/// its name and how many fields — positional or named — it carries. A plain
/// unit variant carries none.
#[derive(Debug, Clone)]
pub struct VariantDecl {
    pub name: String,
    pub field_count: usize,
}

/// The shape of an already-declared item that an attribute or derive was
/// placed on: an enum with its variants, or one of the other data item
/// kinds, which extraction rejects.
#[derive(Debug, Clone)]
pub enum ItemData {
    EnumData(Vec<VariantDecl>),
    StructData,
    UnionData,
}

/// An already-declared item: its name and its shape.
#[derive(Debug, Clone)]
pub struct ItemDecl {
    pub name: String,
    pub data: ItemData,
}

/// Why extraction from an already-declared item failed; the first two are
/// compile-time defects of the declaration, the third is the rejection of an
/// uninhabited enum, over which the cyclic operations would be undefined.
#[derive(Debug, Clone, Copy, PartialEq, Eq)]
pub enum ExtractError {
    /// The item the attribute or derive was placed on is not an enum.
    NotAnEnum,
    /// A variant carries fields; `variant` is the index of the first one
    /// that does.
    VariantHasFields { variant: usize },
    /// The enum declares no variants.
    NoVariants,
}

/// No variant of the list carries fields.
pub open spec fn fields_free(vs: Seq<VariantDecl>) -> bool {
    forall|i: int| 0 <= i < vs.len() ==> vs[i].field_count == 0
}

/// The names of the declared variants, in declaration order.
pub open spec fn decl_names(vs: Seq<VariantDecl>) -> Seq<String> {
    vs.map_values(|v: VariantDecl| v.name)
}

/// The name of a declared variant, provided it carries no fields; a variant
/// with fields — positional or named — is rejected.
pub fn ident_from_variant(v: &VariantDecl) -> (r: Result<String, ()>)
    ensures
        r is Ok <==> v.field_count == 0,
        r matches Ok(s) ==> s == v.name,
{
    if v.field_count == 0 {
        Ok(v.name.clone())
    } else {
        Err(())
    }
}

/// Extracts the variant list from an already-declared item. Succeeds exactly
/// when the item is an enum none of whose variants carries fields, and then
/// yields the enum's own name and its variant names in declaration order;
/// the type definition is not emitted again. A non-enum item is rejected as
/// `NotAnEnum`, an enum with a field-carrying variant as `VariantHasFields`
/// at the first such variant.
pub fn extract_variant_list(decl: &ItemDecl) -> (r: Result<VariantList, ExtractError>)
    ensures
        r is Ok <==> (decl.data matches ItemData::EnumData(vs) && fields_free(vs@)),
        r matches Ok(vl) ==> {
            &&& decl.data matches ItemData::EnumData(vs)
            &&& vl.name == decl.name
            &&& vl.variants@ == decl_names(vs@)
            &&& vl.define_type == false
        },
        r matches Err(e) ==> {
            &&& (e is NotAnEnum <==> !(decl.data is EnumData))
            &&& (e matches ExtractError::VariantHasFields { variant } ==> {
                &&& decl.data matches ItemData::EnumData(vs)
                &&& variant < vs@.len()
                &&& vs@[variant as int].field_count != 0
                &&& forall|j: int| 0 <= j < variant ==> vs@[j].field_count == 0
            })
            &&& !(e is NoVariants)
        },
{
    let vs: &Vec<VariantDecl> = match &decl.data {
        ItemData::EnumData(vs) => vs,
        _ => {
            return Err(ExtractError::NotAnEnum);
        },
    };
    let n = vs.len();
    let mut names: Vec<String> = Vec::new();
    let mut i: usize = 0;
    while i < n
        invariant
            decl.data matches ItemData::EnumData(v) && v == *vs,
            n == vs@.len(),
            i <= n,
            names@.len() == i,
            forall|j: int| 0 <= j < i ==> vs@[j].field_count == 0,
            forall|j: int| 0 <= j < i ==> names@[j] == vs@[j].name,
        decreases n - i,
    {
        match ident_from_variant(&vs[i]) {
            Ok(name) => {
                names.push(name);
            },
            Err(()) => {
                return Err(ExtractError::VariantHasFields { variant: i });
            },
        }
        i = i + 1;
    }
    proof {
        assert(names@ =~= decl_names(vs@));
    }
    Ok(VariantList { name: decl.name.clone(), variants: names, define_type: false })
}

} // verus!
