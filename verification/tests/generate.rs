use itsuki::extract::{ExtractError, ItemData, ItemDecl, VariantDecl};
use itsuki::generate::{
    generate, variants_ns, variants_nexts, variants_prevs, zero_indexed_enum_derive_parse,
    zero_indexed_enum_parse,
};
use itsuki::parse::{SyntaxErrorKind, Token};
use itsuki::variant_list::VariantList;

fn names(ns: &[&str]) -> Vec<String> {
    ns.iter().map(|s| s.to_string()).collect()
}

#[test]
fn discriminants_are_sequential_from_zero() {
    let vs = names(&["Ichika", "Nino", "Miku"]);
    assert_eq!(variants_ns(&vs), vec![0, 1, 2]);
}

#[test]
fn successor_table_rotates_left() {
    let vs = names(&["Ichika", "Nino", "Miku", "Yotsuba", "Itsuki"]);
    assert_eq!(
        variants_nexts(&vs),
        names(&["Nino", "Miku", "Yotsuba", "Itsuki", "Ichika"])
    );
}

#[test]
fn predecessor_table_rotates_right() {
    let vs = names(&["Ichika", "Nino", "Miku", "Yotsuba", "Itsuki"]);
    assert_eq!(
        variants_prevs(&vs),
        names(&["Itsuki", "Ichika", "Nino", "Miku", "Yotsuba"])
    );
}

#[test]
fn generator_assembles_all_tables() {
    let vl = VariantList {
        name: "Quintuplets".to_string(),
        variants: names(&["Ichika", "Nino", "Miku", "Yotsuba", "Itsuki"]),
        define_type: true,
    };
    let g = generate(vl);
    assert_eq!(g.name, "Quintuplets");
    assert!(g.define_type);
    assert_eq!(g.len, 5);
    assert_eq!(g.variants, names(&["Ichika", "Nino", "Miku", "Yotsuba", "Itsuki"]));
    assert_eq!(g.discriminants, vec![0, 1, 2, 3, 4]);
    assert_eq!(g.nexts, names(&["Nino", "Miku", "Yotsuba", "Itsuki", "Ichika"]));
    assert_eq!(g.prevs, names(&["Itsuki", "Ichika", "Nino", "Miku", "Yotsuba"]));
}

#[test]
fn bracketed_pipeline_defines_type() {
    let toks = vec![
        Token::Ident("Pair".to_string()),
        Token::FatArrow,
        Token::LBracket,
        Token::Ident("Left".to_string()),
        Token::Comma,
        Token::Ident("Right".to_string()),
        Token::RBracket,
    ];
    let g = zero_indexed_enum_parse(&toks).unwrap();
    assert_eq!(g.name, "Pair");
    assert!(g.define_type);
    assert_eq!(g.len, 2);
    assert_eq!(g.variants, names(&["Left", "Right"]));
    assert_eq!(g.nexts, names(&["Right", "Left"]));
    assert_eq!(g.prevs, names(&["Right", "Left"]));
}

#[test]
fn bracketed_pipeline_rejects_empty_list() {
    let toks = vec![
        Token::Ident("Never".to_string()),
        Token::FatArrow,
        Token::LBracket,
        Token::RBracket,
    ];
    let e = zero_indexed_enum_parse(&toks).unwrap_err();
    assert_eq!(e.kind, SyntaxErrorKind::EmptyVariantList);
}

#[test]
fn bracketed_pipeline_passes_parse_errors_through() {
    let toks = vec![Token::Ident("T".to_string()), Token::FatArrow, Token::Other];
    let e = zero_indexed_enum_parse(&toks).unwrap_err();
    assert_eq!(e.kind, SyntaxErrorKind::ExpectedBracket);
    assert_eq!(e.pos, 2);
}

#[test]
fn derive_pipeline_keeps_existing_type() {
    let decl = ItemDecl {
        name: "Trio".to_string(),
        data: ItemData::EnumData(vec![
            VariantDecl { name: "Fst".to_string(), field_count: 0 },
            VariantDecl { name: "Snd".to_string(), field_count: 0 },
            VariantDecl { name: "Trd".to_string(), field_count: 0 },
        ]),
    };
    let g = zero_indexed_enum_derive_parse(&decl).unwrap();
    assert_eq!(g.name, "Trio");
    assert!(!g.define_type);
    assert_eq!(g.len, 3);
    assert_eq!(g.discriminants, vec![0, 1, 2]);
    assert_eq!(g.nexts, names(&["Snd", "Trd", "Fst"]));
    assert_eq!(g.prevs, names(&["Trd", "Fst", "Snd"]));
}

#[test]
fn derive_pipeline_rejects_non_enum_and_fields() {
    let on_struct = ItemDecl { name: "S".to_string(), data: ItemData::StructData };
    assert_eq!(
        zero_indexed_enum_derive_parse(&on_struct),
        Err(ExtractError::NotAnEnum)
    );
    let with_fields = ItemDecl {
        name: "H".to_string(),
        data: ItemData::EnumData(vec![VariantDecl { name: "One".to_string(), field_count: 1 }]),
    };
    assert_eq!(
        zero_indexed_enum_derive_parse(&with_fields),
        Err(ExtractError::VariantHasFields { variant: 0 })
    );
}

#[test]
fn derive_pipeline_rejects_empty_enum() {
    let decl = ItemDecl { name: "Never".to_string(), data: ItemData::EnumData(vec![]) };
    assert_eq!(
        zero_indexed_enum_derive_parse(&decl),
        Err(ExtractError::NoVariants)
    );
}
