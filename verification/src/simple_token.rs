//! A minimal owned token: a kind plus its source position.

use crate::lexable_token::LexableToken;
use crate::token_kind::TokenKind;
use vstd::prelude::*;

verus! {

/// A lexed token reduced to what the tree core consumes: kind, byte offset,
/// and width. Trivia is not modeled.
#[derive(Clone, Copy, Debug, PartialEq, Eq, Structural)]
pub struct SimpleToken {
    pub kind: TokenKind,
    pub offset: usize,
    pub width: usize,
}

impl LexableToken for SimpleToken {
    open spec fn spec_kind(&self) -> TokenKind {
        self.kind
    }

    open spec fn spec_offset(&self) -> usize {
        self.offset
    }

    open spec fn spec_width(&self) -> usize {
        self.width
    }

    fn kind(&self) -> TokenKind {
        self.kind
    }

    fn offset(&self) -> usize {
        self.offset
    }

    fn width(&self) -> usize {
        self.width
    }
}

} // verus!
