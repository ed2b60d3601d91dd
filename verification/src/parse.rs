use vstd::prelude::*;

use crate::variant_list::VariantList;

verus! {

/// One token of the bracketed declaration form, as the macro front end hands
/// it over: identifiers keep their text, the structural tokens of the
/// grammar are distinguished, and every other token is `Other`.
pub enum Token {
    /// An identifier, with its text.
    Ident(String),
    /// The separator `=>`.
    FatArrow,
    /// The opening `[` of the variant list.
    LBracket,
    /// The closing `]` of the variant list.
    RBracket,
    /// The separator `,` between variants.
    Comma,
    /// Any token that the grammar has no use for.
    Other,
}

/// What went wrong with a bracketed declaration; the diagnostic of a
/// `SyntaxError`.
#[derive(Debug, Clone, Copy, PartialEq, Eq)]
pub enum SyntaxErrorKind {
    /// The input ended where a further token was required.
    UnexpectedEnd,
    /// The first token is not an identifier naming the type.
    ExpectedTypeName,
    /// The token after the type name is not `=>`.
    ExpectedArrow,
    /// The token after `=>` is not `[`.
    ExpectedBracket,
    /// Inside the list, a token is neither an identifier nor `]`.
    ExpectedVariant,
    /// Inside the list, the token after a variant is neither `,` nor `]`.
    ExpectedComma,
    /// Tokens follow the closing `]`.
    TrailingTokens,
    /// The list names no variants, so the cyclic operations would be
    /// undefined.
    EmptyVariantList,
}

/// A rejected bracketed declaration: the kind of defect and the index of the
/// token at which it was detected (the input length, if the input ended too
/// early).
#[derive(Debug, Clone, Copy, PartialEq, Eq)]
pub struct SyntaxError {
    pub kind: SyntaxErrorKind,
    pub pos: usize,
}

/// The text of an identifier token.
pub open spec fn ident_text(t: Token) -> String {
    t->Ident_0
}

/// The tokens form a comma-separated list of identifiers — a trailing comma
/// allowed — closed by `]`, with nothing after it.
pub open spec fn valid_closed_items(toks: Seq<Token>) -> bool
    decreases toks.len(),
{
    &&& toks.len() >= 1
    &&& {
        ||| (toks[0] is RBracket && toks.len() == 1)
        ||| (toks[0] is Ident && toks.len() >= 2 && {
            ||| (toks[1] is RBracket && toks.len() == 2)
            ||| (toks[1] is Comma && valid_closed_items(toks.skip(2)))
        })
    }
}

/// The identifiers of such a closed list, in order.
pub open spec fn closed_item_names(toks: Seq<Token>) -> Seq<String>
    decreases toks.len(),
{
    if toks.len() == 0 {
        Seq::empty()
    } else if toks[0] is RBracket {
        Seq::empty()
    } else if toks[0] is Ident && toks.len() >= 2 && toks[1] is Comma {
        seq![ident_text(toks[0])] + closed_item_names(toks.skip(2))
    } else if toks[0] is Ident {
        seq![ident_text(toks[0])]
    } else {
        Seq::empty()
    }
}

/// The whole token sequence is a well-formed bracketed declaration:
/// `TypeName => [ Variant, ..., Variant ]`, nothing before, nothing after,
/// possibly with a trailing comma, possibly with no variants at all.
pub open spec fn valid_macro_input(toks: Seq<Token>) -> bool {
    &&& toks.len() >= 3
    &&& toks[0] is Ident
    &&& toks[1] is FatArrow
    &&& toks[2] is LBracket
    &&& valid_closed_items(toks.skip(3))
}

/// The name of the declared type.
pub open spec fn input_name(toks: Seq<Token>) -> String {
    ident_text(toks[0])
}

/// The declared variant names, in source order.
pub open spec fn input_variants(toks: Seq<Token>) -> Seq<String> {
    closed_item_names(toks.skip(3))
}

/// Parses the bracketed declaration form. Succeeds exactly on the token
/// sequences that `valid_macro_input` admits, and then yields the declared
/// type name and variant names in source order, with the type definition
/// still to be emitted. Every rejection names the offending token index.
pub fn parse_variant_list(tokens: &Vec<Token>) -> (r: Result<VariantList, SyntaxError>)
    ensures
        r is Ok <==> valid_macro_input(tokens@),
        r matches Ok(vl) ==> {
            &&& vl.name == input_name(tokens@)
            &&& vl.variants@ == input_variants(tokens@)
            &&& vl.define_type == true
        },
        r matches Err(e) ==> {
            &&& e.pos <= tokens@.len()
            &&& (e.kind is UnexpectedEnd ==> e.pos == tokens@.len())
            &&& (e.kind is ExpectedTypeName ==> e.pos == 0 && !(tokens@[0] is Ident))
            &&& (e.kind is ExpectedArrow ==> e.pos == 1 && !(tokens@[1] is FatArrow))
            &&& (e.kind is ExpectedBracket ==> e.pos == 2 && !(tokens@[2] is LBracket))
            &&& (e.kind is ExpectedVariant ==> 3 <= e.pos < tokens@.len()
                && !(tokens@[e.pos as int] is Ident) && !(tokens@[e.pos as int] is RBracket))
            &&& (e.kind is ExpectedComma ==> 4 <= e.pos < tokens@.len()
                && !(tokens@[e.pos as int] is Comma) && !(tokens@[e.pos as int] is RBracket))
            &&& (e.kind is TrailingTokens ==> 4 <= e.pos < tokens@.len()
                && tokens@[e.pos - 1] is RBracket)
            &&& !(e.kind is EmptyVariantList)
        },
{
    let n = tokens.len();
    if n == 0 {
        return Err(SyntaxError { kind: SyntaxErrorKind::UnexpectedEnd, pos: 0 });
    }
    let name: String = match &tokens[0] {
        Token::Ident(s) => s.clone(),
        _ => {
            return Err(SyntaxError { kind: SyntaxErrorKind::ExpectedTypeName, pos: 0 });
        },
    };
    if n == 1 {
        return Err(SyntaxError { kind: SyntaxErrorKind::UnexpectedEnd, pos: 1 });
    }
    match &tokens[1] {
        Token::FatArrow => {},
        _ => {
            return Err(SyntaxError { kind: SyntaxErrorKind::ExpectedArrow, pos: 1 });
        },
    }
    if n == 2 {
        return Err(SyntaxError { kind: SyntaxErrorKind::UnexpectedEnd, pos: 2 });
    }
    match &tokens[2] {
        Token::LBracket => {},
        _ => {
            return Err(SyntaxError { kind: SyntaxErrorKind::ExpectedBracket, pos: 2 });
        },
    }
    let mut variants: Vec<String> = Vec::new();
    let mut i: usize = 3;
    loop
        invariant
            n == tokens@.len(),
            n >= 3,
            tokens@[0] is Ident,
            tokens@[1] is FatArrow,
            tokens@[2] is LBracket,
            3 <= i <= n,
            name == ident_text(tokens@[0]),
            valid_closed_items(tokens@.skip(3)) <==> valid_closed_items(tokens@.skip(i as int)),
            closed_item_names(tokens@.skip(3)) =~= variants@ + closed_item_names(
                tokens@.skip(i as int),
            ),
        decreases n - i,
    {
        if i == n {
            return Err(SyntaxError { kind: SyntaxErrorKind::UnexpectedEnd, pos: n });
        }
        match &tokens[i] {
            Token::RBracket => {
                if i + 1 == n {
                    proof {
                        assert(closed_item_names(tokens@.skip(i as int)) =~= Seq::empty());
                        assert(variants@ + Seq::<String>::empty() =~= variants@);
                    }
                    return Ok(VariantList { name, variants, define_type: true });
                } else {
                    return Err(SyntaxError { kind: SyntaxErrorKind::TrailingTokens, pos: i + 1 });
                }
            },
            Token::Ident(s) => {
                let ghost before = tokens@.skip(i as int);
                variants.push(s.clone());
                if i + 1 == n {
                    return Err(SyntaxError { kind: SyntaxErrorKind::UnexpectedEnd, pos: n });
                }
                match &tokens[i + 1] {
                    Token::Comma => {
                        proof {
                            assert(tokens@.skip(i + 2) =~= before.skip(2));
                        }
                        i = i + 2;
                    },
                    Token::RBracket => {
                        if i + 2 == n {
                            proof {
                                assert(closed_item_names(before) =~= seq![
                                    ident_text(tokens@[i as int]),
                                ]);
                            }
                            return Ok(VariantList { name, variants, define_type: true });
                        } else {
                            return Err(
                                SyntaxError { kind: SyntaxErrorKind::TrailingTokens, pos: i + 2 },
                            );
                        }
                    },
                    _ => {
                        return Err(SyntaxError { kind: SyntaxErrorKind::ExpectedComma, pos: i + 1 });
                    },
                }
            },
            _ => {
                return Err(SyntaxError { kind: SyntaxErrorKind::ExpectedVariant, pos: i });
            },
        }
    }
}

} // verus!
