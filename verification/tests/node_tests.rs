use syntax_core::positioned_value::PositionedValue;
use syntax_core::simple_token::SimpleToken;
use syntax_core::syntax::AsExpressionChildren;
use syntax_core::syntax::ListItemChildren;
use syntax_core::syntax::QualifiedNameChildren;
use syntax_core::syntax::Syntax;
use syntax_core::syntax::SyntaxTypeBase;
use syntax_core::syntax::SyntaxVariant;
use syntax_core::syntax_kind::SyntaxKind;
use syntax_core::syntax_value::SyntaxValueType;
use syntax_core::token_kind::TokenKind;

type PosSyntax = Syntax<SimpleToken, PositionedValue>;

fn tok(kind: TokenKind, offset: usize, width: usize) -> SimpleToken {
    SimpleToken { kind, offset, width }
}

fn token_node(kind: TokenKind, offset: usize, width: usize) -> PosSyntax {
    PosSyntax::make_token(&(), tok(kind, offset, width))
}

fn shape_node(variant: SyntaxVariant<SimpleToken, PositionedValue>) -> PosSyntax {
    let value = <PositionedValue as SyntaxValueType<SimpleToken>>::from_syntax(&variant);
    Syntax::make(variant, value)
}

fn list_item_node(item: PosSyntax, separator: PosSyntax) -> PosSyntax {
    shape_node(SyntaxVariant::ListItem(Box::new(ListItemChildren {
        list_item: item,
        list_separator: separator,
    })))
}

fn qualified_name_node(parts: PosSyntax) -> PosSyntax {
    shape_node(SyntaxVariant::QualifiedName(Box::new(QualifiedNameChildren {
        qualified_name_parts: parts,
    })))
}

#[test]
fn make_token_builds_a_leaf() {
    let n = token_node(TokenKind::Public, 3, 6);
    assert_eq!(n.kind(), SyntaxKind::Token);
    assert_eq!(n.syntax.child_count(), 0);
    assert!(!n.is_missing());
    let expected = <PositionedValue as SyntaxValueType<SimpleToken>>::from_token(&tok(
        TokenKind::Public,
        3,
        6,
    ));
    assert_eq!(n.value, expected);
    assert_eq!(n.value, PositionedValue { start: 3, end: 9 });
}

#[test]
fn make_missing_builds_the_placeholder() {
    for offset in [0usize, 1, 7, usize::MAX] {
        let n = PosSyntax::make_missing(&(), offset);
        assert!(n.is_missing());
        assert_eq!(n.syntax.child_count(), 0);
        assert_eq!(n.value, PositionedValue { start: offset, end: offset });
    }
}

#[test]
fn empty_list_is_canonicalized_to_missing() {
    let l = PosSyntax::make_list(&(), Vec::new(), 7);
    let m = PosSyntax::make_missing(&(), 7);
    assert_eq!(l.kind(), m.kind());
    assert!(l.is_missing());
    assert_eq!(l.syntax.child_count(), m.syntax.child_count());
    assert_eq!(l.value, m.value);
}

#[test]
fn singleton_list_stays_a_list() {
    let a = token_node(TokenKind::Name, 0, 3);
    let l = PosSyntax::make_list(&(), vec![a], 0);
    assert_eq!(l.kind(), SyntaxKind::SyntaxList);
    assert_ne!(l.kind(), SyntaxKind::Token);
    assert_eq!(l.syntax.child_count(), 1);
    let flat = l.syntax_node_to_list();
    assert_eq!(flat.len(), 1);
    assert_eq!(flat[0].kind(), SyntaxKind::Token);
    assert_eq!(flat[0].leading_token(), Some(&tok(TokenKind::Name, 0, 3)));
}

#[test]
fn list_value_aggregates_the_children() {
    let a = token_node(TokenKind::Name, 2, 3);
    let b = token_node(TokenKind::Backslash, 5, 1);
    let l = PosSyntax::make_list(&(), vec![a, b], 2);
    assert_eq!(l.value, PositionedValue { start: 2, end: 6 });
}

#[test]
fn node_to_list_lengths() {
    let missing = PosSyntax::make_missing(&(), 4);
    assert_eq!(missing.syntax_node_to_list().len(), 0);

    let a = token_node(TokenKind::Name, 0, 1);
    let b = token_node(TokenKind::Name, 1, 1);
    let l = PosSyntax::make_list(&(), vec![a, b], 0);
    assert_eq!(l.syntax_node_to_list().len(), 2);

    let t = token_node(TokenKind::Void, 0, 4);
    assert_eq!(t.syntax_node_to_list().len(), 1);

    let item = list_item_node(token_node(TokenKind::Name, 0, 3), PosSyntax::make_missing(&(), 3));
    assert_eq!(item.syntax_node_to_list().len(), 1);
}

fn as_expression_node() -> PosSyntax {
    shape_node(SyntaxVariant::AsExpression(Box::new(AsExpressionChildren {
        as_left_operand: token_node(TokenKind::Name, 0, 1),
        as_keyword: token_node(TokenKind::Static, 2, 2),
        as_right_operand: token_node(TokenKind::Name, 5, 1),
    })))
}

#[test]
fn forward_and_backward_iteration_agree() {
    let n = as_expression_node();
    let forward: Vec<usize> = n.collect_children().iter().map(|c| c.value.start).collect();
    let mut backward: Vec<usize> = n.collect_children_rev().iter().map(|c| c.value.start).collect();
    backward.reverse();
    assert_eq!(forward, vec![0, 2, 5]);
    assert_eq!(forward, backward);
}

#[test]
fn mixed_iteration_visits_each_child_once() {
    let n = as_expression_node();
    let mut it = n.iter_children();
    let first = it.next().expect("three children");
    let last = it.next_back().expect("two left");
    let middle = it.next().expect("one left");
    assert_eq!(first.value.start, 0);
    assert_eq!(last.value.start, 5);
    assert_eq!(middle.value.start, 2);
    assert!(it.next().is_none());
    assert!(it.next_back().is_none());
}

#[test]
fn leading_and_trailing_tokens() {
    let n = as_expression_node();
    assert_eq!(n.leading_token(), Some(&tok(TokenKind::Name, 0, 1)));
    assert_eq!(n.trailing_token(), Some(&tok(TokenKind::Name, 5, 1)));

    let missing = PosSyntax::make_missing(&(), 0);
    assert_eq!(missing.leading_token(), None);
    assert_eq!(missing.trailing_token(), None);

    // the first/last token is found by descent past token-free subtrees
    let item = list_item_node(
        PosSyntax::make_missing(&(), 0),
        token_node(TokenKind::Backslash, 3, 1),
    );
    assert_eq!(item.leading_token(), Some(&tok(TokenKind::Backslash, 3, 1)));
    let item2 = list_item_node(
        token_node(TokenKind::Name, 0, 3),
        PosSyntax::make_missing(&(), 3),
    );
    assert_eq!(item2.trailing_token(), Some(&tok(TokenKind::Name, 0, 3)));
}

#[test]
fn drain_and_replace_round_trip() {
    let mut n = list_item_node(
        token_node(TokenKind::Name, 0, 3),
        token_node(TokenKind::Backslash, 3, 1),
    );
    let value_before = n.value;
    let kind_before = n.kind();
    let children = n.drain_children();
    assert!(n.is_missing());
    assert_eq!(n.value, value_before);
    assert_eq!(children.len(), 2);

    n.replace_children(kind_before, children);
    assert_eq!(n.kind(), SyntaxKind::ListItem);
    assert_eq!(n.value, value_before);
    let rebuilt: Vec<usize> = n.collect_children().iter().map(|c| c.value.start).collect();
    assert_eq!(rebuilt, vec![0, 3]);
    assert_eq!(n.leading_token(), Some(&tok(TokenKind::Name, 0, 3)));
    assert_eq!(n.trailing_token(), Some(&tok(TokenKind::Backslash, 3, 1)));
}

#[test]
fn drain_of_a_list_keeps_order() {
    let a = token_node(TokenKind::Name, 0, 1);
    let b = token_node(TokenKind::Name, 2, 1);
    let c = token_node(TokenKind::Name, 4, 1);
    let mut l = PosSyntax::make_list(&(), vec![a, b, c], 0);
    let children = l.drain_children();
    assert!(l.is_missing());
    let starts: Vec<usize> = children.iter().map(|x| x.value.start).collect();
    assert_eq!(starts, vec![0, 2, 4]);
    l.replace_children(SyntaxKind::SyntaxList, children);
    assert_eq!(l.kind(), SyntaxKind::SyntaxList);
    assert_eq!(l.syntax.child_count(), 3);
}

#[test]
fn draining_a_token_discards_the_token() {
    let mut t = token_node(TokenKind::Void, 0, 4);
    let children = t.drain_children();
    assert!(children.is_empty());
    assert!(t.is_missing());
}

#[test]
fn specific_token_predicates() {
    let public = token_node(TokenKind::Public, 0, 6);
    assert!(public.is_specific_token(TokenKind::Public));
    assert!(!public.is_specific_token(TokenKind::Private));
    assert!(public.is_public());
    assert!(!public.is_private());

    let missing = PosSyntax::make_missing(&(), 0);
    assert!(!missing.is_specific_token(TokenKind::Public));
    let l = PosSyntax::make_list(&(), vec![token_node(TokenKind::Public, 0, 6)], 0);
    assert!(!l.is_specific_token(TokenKind::Public));

    assert!(token_node(TokenKind::Private, 0, 7).is_private());
    assert!(token_node(TokenKind::Protected, 0, 9).is_protected());
    assert!(token_node(TokenKind::Abstract, 0, 8).is_abstract());
    assert!(token_node(TokenKind::Static, 0, 6).is_static());
    assert!(token_node(TokenKind::Ampersand, 0, 1).is_ampersand());
    assert!(token_node(TokenKind::DotDotDot, 0, 3).is_ellipsis());
    assert!(token_node(TokenKind::Final, 0, 5).is_final());
    assert!(token_node(TokenKind::Async, 0, 5).is_async());
    assert!(token_node(TokenKind::Construct, 0, 9).is_construct());
    assert!(token_node(TokenKind::Void, 0, 4).is_void());
    assert!(!token_node(TokenKind::Void, 0, 4).is_async());
}

#[test]
fn kind_predicates() {
    let n = as_expression_node();
    assert!(n.is_as_expression());
    assert!(!n.is_missing());
    assert!(!n.is_namespace_empty_body());
    assert!(!token_node(TokenKind::Name, 0, 1).is_as_expression());
}

/// `Foo\Bar\` when trailing is true, `Foo\Bar` when it is false.
fn qualified_name(trailing: bool) -> PosSyntax {
    let foo = list_item_node(
        token_node(TokenKind::Name, 0, 3),
        token_node(TokenKind::Backslash, 3, 1),
    );
    let bar_sep = if trailing {
        token_node(TokenKind::Backslash, 7, 1)
    } else {
        PosSyntax::make_missing(&(), 7)
    };
    let bar = list_item_node(token_node(TokenKind::Name, 4, 3), bar_sep);
    let parts = PosSyntax::make_list(&(), vec![foo, bar], 0);
    qualified_name_node(parts)
}

#[test]
fn namespace_prefix_scenario() {
    assert!(qualified_name(true).is_namespace_prefix());
    assert!(!qualified_name(false).is_namespace_prefix());
    // any non-qualified-name node is no namespace prefix
    assert!(!token_node(TokenKind::Name, 0, 3).is_namespace_prefix());
    assert!(!PosSyntax::make_missing(&(), 0).is_namespace_prefix());
}

#[test]
fn token_end_position_saturates() {
    let n = token_node(TokenKind::Name, usize::MAX - 1, 5);
    assert_eq!(n.value, PositionedValue { start: usize::MAX - 1, end: usize::MAX });
}
