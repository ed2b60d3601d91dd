use itsuki::extract::{
    extract_variant_list, ident_from_variant, ExtractError, ItemData, ItemDecl, VariantDecl,
};

fn unit_variant(name: &str) -> VariantDecl {
    VariantDecl { name: name.to_string(), field_count: 0 }
}

fn enum_decl(name: &str, variants: Vec<VariantDecl>) -> ItemDecl {
    ItemDecl { name: name.to_string(), data: ItemData::EnumData(variants) }
}

#[test]
fn extracts_unit_variants_in_order() {
    let decl = enum_decl(
        "Quintuplets",
        vec![
            unit_variant("Ichika"),
            unit_variant("Nino"),
            unit_variant("Miku"),
            unit_variant("Yotsuba"),
            unit_variant("Itsuki"),
        ],
    );
    let vl = extract_variant_list(&decl).unwrap();
    assert_eq!(vl.name, "Quintuplets");
    assert_eq!(
        vl.variants,
        vec!["Ichika", "Nino", "Miku", "Yotsuba", "Itsuki"]
    );
    assert!(!vl.define_type);
}

#[test]
fn rejects_struct_item() {
    let decl = ItemDecl { name: "NotIt".to_string(), data: ItemData::StructData };
    assert_eq!(extract_variant_list(&decl), Err(ExtractError::NotAnEnum));
}

#[test]
fn rejects_union_item() {
    let decl = ItemDecl { name: "NotIt".to_string(), data: ItemData::UnionData };
    assert_eq!(extract_variant_list(&decl), Err(ExtractError::NotAnEnum));
}

#[test]
fn rejects_variant_with_positional_field() {
    let decl = enum_decl(
        "Holder",
        vec![
            unit_variant("Empty"),
            VariantDecl { name: "One".to_string(), field_count: 1 },
        ],
    );
    assert_eq!(
        extract_variant_list(&decl),
        Err(ExtractError::VariantHasFields { variant: 1 })
    );
}

#[test]
fn rejects_first_variant_with_named_fields() {
    let decl = enum_decl(
        "Holder",
        vec![
            VariantDecl { name: "Pair".to_string(), field_count: 2 },
            unit_variant("Empty"),
            VariantDecl { name: "One".to_string(), field_count: 1 },
        ],
    );
    // The report points at the first offending variant.
    assert_eq!(
        extract_variant_list(&decl),
        Err(ExtractError::VariantHasFields { variant: 0 })
    );
}

#[test]
fn extraction_accepts_empty_enum() {
    let decl = enum_decl("Never", vec![]);
    let vl = extract_variant_list(&decl).unwrap();
    assert!(vl.variants.is_empty());
}

#[test]
fn variant_name_requires_no_fields() {
    assert_eq!(ident_from_variant(&unit_variant("Miku")), Ok("Miku".to_string()));
    assert_eq!(
        ident_from_variant(&VariantDecl { name: "Bad".to_string(), field_count: 3 }),
        Err(())
    );
}
