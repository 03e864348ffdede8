//! Generic concrete-syntax-tree node core.
//!
//! A parsed tree is built from [`syntax::Syntax`] nodes: a tagged variant
//! (`Missing`, `Token`, `SyntaxList`, or a grammar production shape) paired
//! with a value annotation computed once at construction. The value type is
//! chosen by the tree flavor through [`syntax_value::SyntaxValueType`], so one
//! construction algorithm serves both a position-tracking flavor and a
//! lightweight one.

pub mod lexable_token;
pub mod syntax_kind;
pub mod token_kind;

pub mod syntax;
pub mod syntax_value;

pub mod kinded_value;
pub mod positioned_value;
pub mod simple_token;
