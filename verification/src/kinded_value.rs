//! The lightweight value flavor: no positions, only missingness and token
//! kind — for walks that never need spans.

use crate::lexable_token::LexableToken;
use crate::syntax::SyntaxVariant;
use crate::syntax_kind::SyntaxKind;
use crate::syntax_value::SyntaxValueType;
use crate::syntax_value::SyntaxValueWithKind;
use crate::token_kind::TokenKind;
use vstd::prelude::*;

verus! {

/// A node value carrying only kind-level facts: whether the node was built
/// missing, and the wrapped token's kind for a token leaf. It never reports a
/// text range.
#[derive(Clone, Copy, Debug)]
pub struct KindedValue {
    pub missing: bool,
    pub token_kind: Option<TokenKind>,
}

impl<T: LexableToken> SyntaxValueType<T> for KindedValue {
    open spec fn spec_from_token(token: T) -> Self {
        KindedValue { missing: false, token_kind: Some(token.spec_kind()) }
    }

    open spec fn spec_from_children(kind: SyntaxKind, offset: usize, values: Seq<Self>) -> Self {
        KindedValue { missing: kind == SyntaxKind::Missing, token_kind: None }
    }

    open spec fn spec_from_values(values: Seq<Self>) -> Self {
        KindedValue { missing: false, token_kind: None }
    }

    open spec fn spec_from_syntax(syntax: SyntaxVariant<T, Self>) -> Self {
        KindedValue {
            missing: syntax.spec_kind() == SyntaxKind::Missing,
            token_kind: match syntax {
                SyntaxVariant::Token(t) => Some(t.spec_kind()),
                _ => None,
            },
        }
    }

    open spec fn spec_text_range(&self) -> Option<(usize, usize)> {
        None
    }

    fn from_token(token: &T) -> Self {
        KindedValue { missing: false, token_kind: Some(token.kind()) }
    }

    fn from_children(kind: SyntaxKind, offset: usize, values: &Vec<&Self>) -> Self {
        KindedValue { missing: kind == SyntaxKind::Missing, token_kind: None }
    }

    fn from_values(values: &Vec<&Self>) -> Self {
        KindedValue { missing: false, token_kind: None }
    }

    fn from_syntax(syntax: &SyntaxVariant<T, Self>) -> Self {
        match syntax {
            SyntaxVariant::Token(t) => KindedValue {
                missing: false,
                token_kind: Some(t.kind()),
            },
            SyntaxVariant::Missing => KindedValue { missing: true, token_kind: None },
            _ => KindedValue { missing: false, token_kind: None },
        }
    }

    fn text_range(&self) -> Option<(usize, usize)> {
        None
    }
}

impl SyntaxValueWithKind for KindedValue {
    open spec fn spec_is_missing(&self) -> bool {
        self.missing
    }

    open spec fn spec_token_kind(&self) -> Option<TokenKind> {
        self.token_kind
    }

    fn is_missing(&self) -> bool {
        self.missing
    }

    fn token_kind(&self) -> Option<TokenKind> {
        self.token_kind
    }
}

} // verus!
