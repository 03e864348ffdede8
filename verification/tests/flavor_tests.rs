use syntax_core::kinded_value::KindedValue;
use syntax_core::lexable_token::LexableToken;
use syntax_core::positioned_value::PositionedValue;
use syntax_core::simple_token::SimpleToken;
use syntax_core::syntax::Syntax;
use syntax_core::syntax::SyntaxTypeBase;
use syntax_core::syntax_kind::SyntaxKind;
use syntax_core::syntax_value::SyntaxValueType;
use syntax_core::syntax_value::SyntaxValueWithKind;
use syntax_core::token_kind::TokenKind;

type KindSyntax = Syntax<SimpleToken, KindedValue>;

fn tok(kind: TokenKind, offset: usize, width: usize) -> SimpleToken {
    SimpleToken { kind, offset, width }
}

#[test]
fn kinded_flavor_tracks_kind_facts_only() {
    let t = KindSyntax::make_token(&(), tok(TokenKind::Final, 2, 5));
    assert!(!t.value.is_missing());
    assert_eq!(t.value.token_kind(), Some(TokenKind::Final));
    assert_eq!(<KindedValue as SyntaxValueType<SimpleToken>>::text_range(&t.value), None);

    let m = KindSyntax::make_missing(&(), 9);
    assert!(<KindSyntax as SyntaxTypeBase<()>>::value(&m).is_missing());
    assert_eq!(m.value.token_kind(), None);
    assert_eq!(<KindedValue as SyntaxValueType<SimpleToken>>::text_range(&m.value), None);
}

#[test]
fn kinded_flavor_canonicalizes_the_empty_list() {
    let l = KindSyntax::make_list(&(), Vec::new(), 0);
    assert!(l.is_missing());
    assert!(l.value.is_missing());

    let one = KindSyntax::make_token(&(), tok(TokenKind::Name, 0, 1));
    let l = KindSyntax::make_list(&(), vec![one], 0);
    assert_eq!(l.kind(), SyntaxKind::SyntaxList);
    assert!(!l.value.is_missing());
    assert_eq!(l.value.token_kind(), None);
}

#[test]
fn positioned_flavor_always_reports_a_range() {
    let t = Syntax::<SimpleToken, PositionedValue>::make_token(&(), tok(TokenKind::Name, 4, 2));
    assert_eq!(<PositionedValue as SyntaxValueType<SimpleToken>>::text_range(&t.value), Some((4, 6)));
    let m = Syntax::<SimpleToken, PositionedValue>::make_missing(&(), 11);
    assert_eq!(<PositionedValue as SyntaxValueType<SimpleToken>>::text_range(&m.value), Some((11, 11)));
}

#[test]
fn value_recomputation_paths_agree_on_children() {
    let a = PositionedValue { start: 2, end: 5 };
    let b = PositionedValue { start: 6, end: 9 };
    let refs = vec![&a, &b];
    let from_values = <PositionedValue as SyntaxValueType<SimpleToken>>::from_values(&refs);
    assert_eq!(from_values, PositionedValue { start: 2, end: 9 });
    let from_children = <PositionedValue as SyntaxValueType<SimpleToken>>::from_children(
        SyntaxKind::SyntaxList,
        2,
        &refs,
    );
    assert_eq!(from_children, PositionedValue { start: 2, end: 9 });
    let none: Vec<&PositionedValue> = Vec::new();
    let empty = <PositionedValue as SyntaxValueType<SimpleToken>>::from_children(
        SyntaxKind::Missing,
        7,
        &none,
    );
    assert_eq!(empty, PositionedValue { start: 7, end: 7 });
}

#[test]
fn from_syntax_recomputes_from_the_variant() {
    let a = Syntax::<SimpleToken, PositionedValue>::make_token(&(), tok(TokenKind::Name, 1, 2));
    let b = Syntax::<SimpleToken, PositionedValue>::make_token(&(), tok(TokenKind::Name, 4, 3));
    let l = Syntax::<SimpleToken, PositionedValue>::make_list(&(), vec![a, b], 1);
    let recomputed = <PositionedValue as SyntaxValueType<SimpleToken>>::from_syntax(&l.syntax);
    assert_eq!(recomputed, l.value);
    assert_eq!(recomputed, PositionedValue { start: 1, end: 7 });
}

#[test]
fn simple_token_exposes_its_fields() {
    let t = tok(TokenKind::Construct, 10, 9);
    assert_eq!(t.kind(), TokenKind::Construct);
    assert_eq!(t.offset(), 10);
    assert_eq!(t.width(), 9);
}
