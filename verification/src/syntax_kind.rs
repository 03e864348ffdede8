//! The kinds a syntax node can have.

use vstd::prelude::*;

verus! {

/// Tag identifying a node's variant: the three synthetic kinds (`Missing`,
/// `Token`, `SyntaxList`) plus one kind per grammar production shape.
#[derive(Clone, Copy, Debug, PartialEq, Eq, Structural)]
pub enum SyntaxKind {
    Missing,
    Token,
    SyntaxList,
    ListItem,
    QualifiedName,
    AsExpression,
    NamespaceEmptyBody,
}

} // verus!
