//! The token capability consumed by the tree core.

use crate::token_kind::TokenKind;
use vstd::prelude::*;

verus! {

/// A lexed unit as the tree core sees it: a kind plus a source position.
/// Trivia (whitespace, comments) stays inside the implementing type and is
/// never exposed as tree structure.
pub trait LexableToken: Sized {
    /// The kind of this token, as a spec-level value.
    spec fn spec_kind(&self) -> TokenKind;

    /// Byte offset of the token in the source, as a spec-level value.
    spec fn spec_offset(&self) -> usize;

    /// Width of the token in bytes, as a spec-level value.
    spec fn spec_width(&self) -> usize;

    /// The kind of this token.
    fn kind(&self) -> (r: TokenKind)
        ensures
            r == self.spec_kind(),
    ;

    /// Byte offset of the token in the source.
    fn offset(&self) -> (r: usize)
        ensures
            r == self.spec_offset(),
    ;

    /// Width of the token in bytes.
    fn width(&self) -> (r: usize)
        ensures
            r == self.spec_width(),
    ;
}

} // verus!
