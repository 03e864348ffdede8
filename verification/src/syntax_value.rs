//! The value annotation contracts.
//!
//! A tree flavor chooses a value type; the node core computes each node's
//! value exactly once, at construction, through these operations. A flavor
//! either always reports a text range or never does — the indirection is what
//! lets one construction algorithm serve a position-tracking tree and a
//! lightweight one.

use crate::syntax::SyntaxVariant;
use crate::syntax_kind::SyntaxKind;
use crate::token_kind::TokenKind;
use vstd::prelude::*;

verus! {

/// Computes and aggregates the per-node value annotation. Each executable
/// operation is pinned to its spec-level counterpart, so node contracts can
/// state exactly which value a node carries.
pub trait SyntaxValueType<T>: Sized {
    /// Spec-level value of a leaf built from `token`.
    spec fn spec_from_token(token: T) -> Self;

    /// Spec-level value of an interior node of kind `kind` starting at
    /// `offset`, whose children carry `values` (in child order).
    spec fn spec_from_children(kind: SyntaxKind, offset: usize, values: Seq<Self>) -> Self;

    /// Spec-level recomputation from child values alone, with no kind or
    /// offset context (rebuild scenarios).
    spec fn spec_from_values(values: Seq<Self>) -> Self;

    /// Spec-level recomputation from an already-built variant.
    spec fn spec_from_syntax(syntax: SyntaxVariant<T, Self>) -> Self;

    /// Spec-level text range; `Some` always or `None` always, per flavor.
    spec fn spec_text_range(&self) -> Option<(usize, usize)>;

    /// Value of a leaf wrapping `token`.
    fn from_token(token: &T) -> (r: Self)
        ensures
            r == Self::spec_from_token(*token),
    ;

    /// Value of an interior node from its kind, start offset, and its
    /// children's already-computed values.
    fn from_children(kind: SyntaxKind, offset: usize, values: &Vec<&Self>) -> (r: Self)
        ensures
            r == Self::spec_from_children(kind, offset, values@.map_values(|v: &Self| *v)),
    ;

    /// Recomputed value from child values alone.
    fn from_values(values: &Vec<&Self>) -> (r: Self)
        ensures
            r == Self::spec_from_values(values@.map_values(|v: &Self| *v)),
    ;

    /// Recomputed value from an already-built variant.
    fn from_syntax(syntax: &SyntaxVariant<T, Self>) -> (r: Self)
        ensures
            r == Self::spec_from_syntax(*syntax),
    ;

    /// The node's span as `(start, end)` (end exclusive) if this flavor
    /// tracks positions, else `None`.
    fn text_range(&self) -> (r: Option<(usize, usize)>)
        ensures
            r == self.spec_text_range(),
    ;
}

/// Reduced capability for algorithms that need only missingness and token
/// kind, not the full value contract.
pub trait SyntaxValueWithKind {
    /// Whether this value was computed for a missing node.
    spec fn spec_is_missing(&self) -> bool;

    /// The wrapped token's kind, if the value was computed for a token leaf.
    spec fn spec_token_kind(&self) -> Option<TokenKind>;

    /// Whether this value was computed for a missing node.
    fn is_missing(&self) -> (r: bool)
        ensures
            r == self.spec_is_missing(),
    ;

    /// The wrapped token's kind, if the value was computed for a token leaf.
    fn token_kind(&self) -> (r: Option<TokenKind>)
        ensures
            r == self.spec_token_kind(),
    ;
}

} // verus!
