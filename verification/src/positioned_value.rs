//! The position-tracking value flavor: every node carries its byte range.

use crate::lexable_token::LexableToken;
use crate::syntax::SyntaxVariant;
use crate::syntax_kind::SyntaxKind;
use crate::syntax_value::SyntaxValueType;
use vstd::prelude::*;

verus! {

/// Sum clipped to the machine word, so a leaf's end position is always
/// representable.
pub open spec fn spec_saturating_add(a: usize, b: usize) -> usize {
    if a + b <= usize::MAX {
        (a + b) as usize
    } else {
        usize::MAX
    }
}

/// A node value for the full-fidelity flavor: the node's byte range
/// `[start, end)` in the source.
#[derive(Clone, Copy, Debug, PartialEq, Eq, Structural)]
pub struct PositionedValue {
    pub start: usize,
    pub end: usize,
}

impl PositionedValue {
    /// The range aggregated from already-computed child values: from the
    /// first child's start to the last child's end, or the zero-width range
    /// at `offset` when there are no children.
    pub open spec fn spec_aggregate(offset: usize, values: Seq<Self>) -> Self {
        if values.len() == 0 {
            PositionedValue { start: offset, end: offset }
        } else {
            PositionedValue { start: values[0].start, end: values.last().end }
        }
    }

    fn saturating_add(a: usize, b: usize) -> (r: usize)
        ensures
            r == spec_saturating_add(a, b),
    {
        if b <= usize::MAX - a {
            a + b
        } else {
            usize::MAX
        }
    }
}

impl<T: LexableToken> SyntaxValueType<T> for PositionedValue {
    open spec fn spec_from_token(token: T) -> Self {
        PositionedValue {
            start: token.spec_offset(),
            end: spec_saturating_add(token.spec_offset(), token.spec_width()),
        }
    }

    open spec fn spec_from_children(kind: SyntaxKind, offset: usize, values: Seq<Self>) -> Self {
        Self::spec_aggregate(offset, values)
    }

    open spec fn spec_from_values(values: Seq<Self>) -> Self {
        Self::spec_aggregate(0, values)
    }

    open spec fn spec_from_syntax(syntax: SyntaxVariant<T, Self>) -> Self {
        Self::spec_aggregate(
            0,
            syntax.spec_children().map_values(|n: crate::syntax::Syntax<T, Self>| n.value),
        )
    }

    open spec fn spec_text_range(&self) -> Option<(usize, usize)> {
        Some((self.start, self.end))
    }

    fn from_token(token: &T) -> Self {
        let offset = token.offset();
        PositionedValue { start: offset, end: Self::saturating_add(offset, token.width()) }
    }

    fn from_children(kind: SyntaxKind, offset: usize, values: &Vec<&Self>) -> Self {
        if values.len() == 0 {
            PositionedValue { start: offset, end: offset }
        } else {
            PositionedValue { start: values[0].start, end: values[values.len() - 1].end }
        }
    }

    fn from_values(values: &Vec<&Self>) -> Self {
        if values.len() == 0 {
            PositionedValue { start: 0, end: 0 }
        } else {
            PositionedValue { start: values[0].start, end: values[values.len() - 1].end }
        }
    }

    fn from_syntax(syntax: &SyntaxVariant<T, Self>) -> Self {
        let n = syntax.child_count();
        if n == 0 {
            PositionedValue { start: 0, end: 0 }
        } else {
            PositionedValue { start: syntax.child_at(0).value.start, end: syntax.child_at(
                n - 1,
            ).value.end }
        }
    }

    fn text_range(&self) -> Option<(usize, usize)> {
        Some((self.start, self.end))
    }
}

} // verus!
