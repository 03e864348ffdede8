//! The kinds a lexed token can have.

use vstd::prelude::*;

verus! {

/// Kind tag carried by every lexed token. Only the kinds that the fixed-kind
/// predicates and the qualified-name machinery look at are listed; a grammar
/// would extend this enumeration.
#[derive(Clone, Copy, Debug, PartialEq, Eq, Structural)]
pub enum TokenKind {
    Abstract,
    Ampersand,
    Async,
    Backslash,
    Construct,
    DotDotDot,
    Final,
    Name,
    Private,
    Protected,
    Public,
    Semicolon,
    Static,
    Void,
}

} // verus!
