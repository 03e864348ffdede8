//! The node representation: a tagged variant paired with a value annotation,
//! the builder factories, children traversal, and tree rewriting utilities.

use crate::lexable_token::LexableToken;
use crate::syntax_kind::SyntaxKind;
use crate::syntax_value::SyntaxValueType;
use crate::token_kind::TokenKind;
use vstd::prelude::*;

verus! {

/// A node of the tree: its variant plus the value computed at construction.
/// The variant is owned exclusively; the value is never mutated independently
/// of the variant it was computed from.
#[derive(Debug)]
pub struct Syntax<T, V> {
    pub syntax: SyntaxVariant<T, V>,
    pub value: V,
}

/// Children of a `ListItem` shape: one element of a separated list together
/// with its (possibly missing) trailing separator.
#[derive(Debug)]
pub struct ListItemChildren<T, V> {
    pub list_item: Syntax<T, V>,
    pub list_separator: Syntax<T, V>,
}

/// Children of a `QualifiedName` shape: the list of name parts.
#[derive(Debug)]
pub struct QualifiedNameChildren<T, V> {
    pub qualified_name_parts: Syntax<T, V>,
}

/// Children of an `AsExpression` shape.
#[derive(Debug)]
pub struct AsExpressionChildren<T, V> {
    pub as_left_operand: Syntax<T, V>,
    pub as_keyword: Syntax<T, V>,
    pub as_right_operand: Syntax<T, V>,
}

/// Children of a `NamespaceEmptyBody` shape.
#[derive(Debug)]
pub struct NamespaceEmptyBodyChildren<T, V> {
    pub namespace_semicolon: Syntax<T, V>,
}

/// The tagged variant of a node: zero-width absence, a token leaf, a list of
/// nodes, or a grammar production shape with a fixed ordered set of children.
#[derive(Debug)]
pub enum SyntaxVariant<T, V> {
    Token(Box<T>),
    Missing,
    SyntaxList(Vec<Syntax<T, V>>),
    ListItem(Box<ListItemChildren<T, V>>),
    QualifiedName(Box<QualifiedNameChildren<T, V>>),
    AsExpression(Box<AsExpressionChildren<T, V>>),
    NamespaceEmptyBody(Box<NamespaceEmptyBodyChildren<T, V>>),
}

impl<T, V> SyntaxVariant<T, V> {
    /// The kind tag of this variant.
    pub open spec fn spec_kind(&self) -> SyntaxKind {
        match self {
            SyntaxVariant::Token(_) => SyntaxKind::Token,
            SyntaxVariant::Missing => SyntaxKind::Missing,
            SyntaxVariant::SyntaxList(_) => SyntaxKind::SyntaxList,
            SyntaxVariant::ListItem(_) => SyntaxKind::ListItem,
            SyntaxVariant::QualifiedName(_) => SyntaxKind::QualifiedName,
            SyntaxVariant::AsExpression(_) => SyntaxKind::AsExpression,
            SyntaxVariant::NamespaceEmptyBody(_) => SyntaxKind::NamespaceEmptyBody,
        }
    }

    /// The logical children of this variant, in order. A token leaf has no
    /// children: its internal trivia is never exposed as tree structure.
    pub open spec fn spec_children(&self) -> Seq<Syntax<T, V>> {
        match self {
            SyntaxVariant::Token(_) => Seq::empty(),
            SyntaxVariant::Missing => Seq::empty(),
            SyntaxVariant::SyntaxList(l) => l@,
            SyntaxVariant::ListItem(b) => seq![b.list_item, b.list_separator],
            SyntaxVariant::QualifiedName(b) => seq![b.qualified_name_parts],
            SyntaxVariant::AsExpression(b) => seq![
                b.as_left_operand,
                b.as_keyword,
                b.as_right_operand,
            ],
            SyntaxVariant::NamespaceEmptyBody(b) => seq![b.namespace_semicolon],
        }
    }

    /// The kind tag of this variant.
    pub fn kind(&self) -> (r: SyntaxKind)
        ensures
            r == self.spec_kind(),
    {
        match self {
            SyntaxVariant::Token(_) => SyntaxKind::Token,
            SyntaxVariant::Missing => SyntaxKind::Missing,
            SyntaxVariant::SyntaxList(_) => SyntaxKind::SyntaxList,
            SyntaxVariant::ListItem(_) => SyntaxKind::ListItem,
            SyntaxVariant::QualifiedName(_) => SyntaxKind::QualifiedName,
            SyntaxVariant::AsExpression(_) => SyntaxKind::AsExpression,
            SyntaxVariant::NamespaceEmptyBody(_) => SyntaxKind::NamespaceEmptyBody,
        }
    }

    /// How many logical children this variant has.
    pub fn child_count(&self) -> (r: usize)
        ensures
            r == self.spec_children().len(),
    {
        match self {
            SyntaxVariant::Token(_) => 0,
            SyntaxVariant::Missing => 0,
            SyntaxVariant::SyntaxList(l) => l.len(),
            SyntaxVariant::ListItem(_) => 2,
            SyntaxVariant::QualifiedName(_) => 1,
            SyntaxVariant::AsExpression(_) => 3,
            SyntaxVariant::NamespaceEmptyBody(_) => 1,
        }
    }

    /// The `i`th logical child, by the uniform positional view every shape
    /// exposes.
    pub fn child_at(&self, i: usize) -> (r: &Syntax<T, V>)
        requires
            i < self.spec_children().len(),
        ensures
            *r == self.spec_children()[i as int],
    {
        match self {
            SyntaxVariant::Token(_) => unreached(),
            SyntaxVariant::Missing => unreached(),
            SyntaxVariant::SyntaxList(l) => &l[i],
            SyntaxVariant::ListItem(b) => if i == 0 {
                &b.list_item
            } else {
                &b.list_separator
            },
            SyntaxVariant::QualifiedName(b) => &b.qualified_name_parts,
            SyntaxVariant::AsExpression(b) => if i == 0 {
                &b.as_left_operand
            } else if i == 1 {
                &b.as_keyword
            } else {
                &b.as_right_operand
            },
            SyntaxVariant::NamespaceEmptyBody(b) => &b.namespace_semicolon,
        }
    }

    /// A fresh double-ended iterator over this variant's logical children.
    pub fn iter_children<'a>(&'a self) -> (r: SyntaxChildrenIterator<'a, T, V>)
        ensures
            r.syntax == self,
            r.index == 0,
            r.index_back == 0,
    {
        SyntaxChildrenIterator { syntax: self, index: 0, index_back: 0 }
    }
}

/// A double-ended, order-preserving iterator over a variant's logical
/// children: a front cursor and a back cursor over the uniform positional
/// view. The cursors never cross, so every child is visited exactly once
/// across the two directions.
pub struct SyntaxChildrenIterator<'a, T, V> {
    pub syntax: &'a SyntaxVariant<T, V>,
    pub index: usize,
    pub index_back: usize,
}

impl<'a, T, V> SyntaxChildrenIterator<'a, T, V> {
    /// The cursors lie within the child range and have not crossed.
    pub open spec fn wf(&self) -> bool {
        self.index + self.index_back <= self.syntax.spec_children().len()
    }

    /// The children not yet visited from either direction.
    pub open spec fn remaining(&self) -> Seq<Syntax<T, V>> {
        self.syntax.spec_children().subrange(
            self.index as int,
            self.syntax.spec_children().len() - self.index_back,
        )
    }

    /// Advances the front cursor: yields the first unvisited child, or `None`
    /// once the cursors have met.
    pub fn next(&mut self) -> (r: Option<&'a Syntax<T, V>>)
        ensures
            final(self).syntax == old(self).syntax,
            final(self).index_back == old(self).index_back,
            old(self).wf() ==> final(self).wf(),
            (old(self).wf() && old(self).remaining().len() > 0) ==> {
                &&& final(self).index == old(self).index + 1
                &&& r matches Some(x) && *x == old(self).remaining()[0]
            },
            !(old(self).wf() && old(self).remaining().len() > 0) ==> {
                &&& r is None
                &&& final(self).index == old(self).index
            },
    {
        let s: &'a SyntaxVariant<T, V> = self.syntax;
        let count = s.child_count();
        if self.index_back <= count && self.index < count - self.index_back {
            let x = s.child_at(self.index);
            self.index = self.index + 1;
            Some(x)
        } else {
            None
        }
    }

    /// Advances the back cursor: yields the last unvisited child, or `None`
    /// once the cursors have met.
    pub fn next_back(&mut self) -> (r: Option<&'a Syntax<T, V>>)
        ensures
            final(self).syntax == old(self).syntax,
            final(self).index == old(self).index,
            old(self).wf() ==> final(self).wf(),
            (old(self).wf() && old(self).remaining().len() > 0) ==> {
                &&& final(self).index_back == old(self).index_back + 1
                &&& r matches Some(x) && *x == old(self).remaining().last()
            },
            !(old(self).wf() && old(self).remaining().len() > 0) ==> {
                &&& r is None
                &&& final(self).index_back == old(self).index_back
            },
    {
        let s: &'a SyntaxVariant<T, V> = self.syntax;
        let count = s.child_count();
        if self.index_back < count && self.index < count - self.index_back {
            let x = s.child_at(count - self.index_back - 1);
            self.index_back = self.index_back + 1;
            Some(x)
        } else {
            None
        }
    }
}

impl<T, V> Syntax<T, V> {
    /// The kind tag of this node.
    pub open spec fn spec_kind(&self) -> SyntaxKind {
        self.syntax.spec_kind()
    }

    /// The logical children of this node, in order.
    pub open spec fn spec_children(&self) -> Seq<Syntax<T, V>> {
        self.syntax.spec_children()
    }

    /// The wrapped token, if this node is a token leaf.
    pub open spec fn spec_token(&self) -> Option<T> {
        match self.syntax {
            SyntaxVariant::Token(t) => Some(*t),
            _ => None,
        }
    }

    /// Every token payload in this subtree, in pre-order (source) order.
    pub open spec fn token_seq(self) -> Seq<T>
        decreases self, 0int,
    {
        match self.syntax {
            SyntaxVariant::Token(t) => seq![*t],
            SyntaxVariant::Missing => Seq::empty(),
            SyntaxVariant::SyntaxList(l) => token_seq_from(l@, 0),
            SyntaxVariant::ListItem(b) => b.list_item.token_seq() + b.list_separator.token_seq(),
            SyntaxVariant::QualifiedName(b) => b.qualified_name_parts.token_seq(),
            SyntaxVariant::AsExpression(b) => b.as_left_operand.token_seq()
                + b.as_keyword.token_seq() + b.as_right_operand.token_seq(),
            SyntaxVariant::NamespaceEmptyBody(b) => b.namespace_semicolon.token_seq(),
        }
    }

    /// The first token of this subtree in pre-order, if the subtree contains
    /// a token leaf at all.
    pub open spec fn spec_leading_token(self) -> Option<T>
        decreases self, 0int,
    {
        match self.syntax {
            SyntaxVariant::Token(t) => Some(*t),
            SyntaxVariant::Missing => None,
            SyntaxVariant::SyntaxList(l) => leading_token_from(l@, 0),
            SyntaxVariant::ListItem(b) => option_or(
                b.list_item.spec_leading_token(),
                b.list_separator.spec_leading_token(),
            ),
            SyntaxVariant::QualifiedName(b) => b.qualified_name_parts.spec_leading_token(),
            SyntaxVariant::AsExpression(b) => option_or(
                b.as_left_operand.spec_leading_token(),
                option_or(
                    b.as_keyword.spec_leading_token(),
                    b.as_right_operand.spec_leading_token(),
                ),
            ),
            SyntaxVariant::NamespaceEmptyBody(b) => b.namespace_semicolon.spec_leading_token(),
        }
    }

    /// The last token of this subtree in pre-order, if the subtree contains a
    /// token leaf at all.
    pub open spec fn spec_trailing_token(self) -> Option<T>
        decreases self, 0int,
    {
        match self.syntax {
            SyntaxVariant::Token(t) => Some(*t),
            SyntaxVariant::Missing => None,
            SyntaxVariant::SyntaxList(l) => trailing_token_upto(l@, l@.len() as int),
            SyntaxVariant::ListItem(b) => option_or(
                b.list_separator.spec_trailing_token(),
                b.list_item.spec_trailing_token(),
            ),
            SyntaxVariant::QualifiedName(b) => b.qualified_name_parts.spec_trailing_token(),
            SyntaxVariant::AsExpression(b) => option_or(
                b.as_right_operand.spec_trailing_token(),
                option_or(
                    b.as_keyword.spec_trailing_token(),
                    b.as_left_operand.spec_trailing_token(),
                ),
            ),
            SyntaxVariant::NamespaceEmptyBody(b) => b.namespace_semicolon.spec_trailing_token(),
        }
    }
}

/// The first of two options that holds a value, if either does.
pub open spec fn option_or<T>(a: Option<T>, b: Option<T>) -> Option<T> {
    if a is Some {
        a
    } else {
        b
    }
}

/// The tokens of the subtrees `s[i..]`, concatenated in order.
pub open spec fn token_seq_from<T, V>(s: Seq<Syntax<T, V>>, i: int) -> Seq<T>
    decreases s, s.len() - i,
{
    if i < 0 || i >= s.len() {
        Seq::empty()
    } else {
        s[i].token_seq() + token_seq_from(s, i + 1)
    }
}

/// The first token found in the subtrees `s[i..]`, scanning forward.
pub open spec fn leading_token_from<T, V>(s: Seq<Syntax<T, V>>, i: int) -> Option<T>
    decreases s, s.len() - i,
{
    if i < 0 || i >= s.len() {
        None
    } else {
        option_or(s[i].spec_leading_token(), leading_token_from(s, i + 1))
    }
}

/// The last token found in the subtrees `s[..i]`, scanning backward.
pub open spec fn trailing_token_upto<T, V>(s: Seq<Syntax<T, V>>, i: int) -> Option<T>
    decreases s, i,
{
    if i <= 0 || i > s.len() {
        None
    } else {
        option_or(s[i - 1].spec_trailing_token(), trailing_token_upto(s, i - 1))
    }
}

/// The tokens of the subtrees `s[..i]`, concatenated in order.
pub open spec fn token_seq_upto<T, V>(s: Seq<Syntax<T, V>>, i: int) -> Seq<T>
    decreases s, i,
{
    if i <= 0 || i > s.len() {
        Seq::empty()
    } else {
        token_seq_upto(s, i - 1) + s[i - 1].token_seq()
    }
}

/// Splitting the token sequence of a node list at position `j`: the prefix
/// tokens followed by the suffix tokens are all the tokens.
pub proof fn lemma_token_seq_split<T, V>(s: Seq<Syntax<T, V>>, j: int)
    requires
        0 <= j <= s.len(),
    ensures
        token_seq_upto(s, s.len() as int) == token_seq_upto(s, j) + token_seq_from(s, j),
    decreases s.len() - j,
{
    if j == s.len() {
        assert(token_seq_upto(s, s.len() as int) =~= token_seq_upto(s, s.len() as int)
            + token_seq_from(s, s.len() as int));
    } else {
        lemma_token_seq_split(s, j + 1);
        assert((token_seq_upto(s, j) + s[j].token_seq()) + token_seq_from(s, j + 1)
            =~= token_seq_upto(s, j) + (s[j].token_seq() + token_seq_from(s, j + 1)));
    }
}

/// The leading-token law: the leading token of a subtree is exactly the first
/// token of its pre-order token sequence — in particular it is `None` exactly
/// when the subtree contains no token leaf.
pub proof fn lemma_leading_token_is_first<T, V>(n: Syntax<T, V>)
    ensures
        n.spec_leading_token() == (if n.token_seq().len() == 0 {
            None::<T>
        } else {
            Some(n.token_seq()[0])
        }),
    decreases n, 0int,
{
    match n.syntax {
        SyntaxVariant::Token(_) => {},
        SyntaxVariant::Missing => {},
        SyntaxVariant::SyntaxList(l) => {
            lemma_leading_from_is_first(l@, 0);
        },
        SyntaxVariant::ListItem(b) => {
            lemma_leading_token_is_first(b.list_item);
            lemma_leading_token_is_first(b.list_separator);
        },
        SyntaxVariant::QualifiedName(b) => {
            lemma_leading_token_is_first(b.qualified_name_parts);
        },
        SyntaxVariant::AsExpression(b) => {
            lemma_leading_token_is_first(b.as_left_operand);
            lemma_leading_token_is_first(b.as_keyword);
            lemma_leading_token_is_first(b.as_right_operand);
        },
        SyntaxVariant::NamespaceEmptyBody(b) => {
            lemma_leading_token_is_first(b.namespace_semicolon);
        },
    }
}

/// The leading-token law for a node list scanned from position `i`.
pub proof fn lemma_leading_from_is_first<T, V>(s: Seq<Syntax<T, V>>, i: int)
    ensures
        leading_token_from(s, i) == (if token_seq_from(s, i).len() == 0 {
            None::<T>
        } else {
            Some(token_seq_from(s, i)[0])
        }),
    decreases s, s.len() - i,
{
    if 0 <= i < s.len() {
        lemma_leading_token_is_first(s[i]);
        lemma_leading_from_is_first(s, i + 1);
    }
}

/// The trailing-token law: the trailing token of a subtree is exactly the
/// last token of its pre-order token sequence — in particular it is `None`
/// exactly when the subtree contains no token leaf.
pub proof fn lemma_trailing_token_is_last<T, V>(n: Syntax<T, V>)
    ensures
        n.spec_trailing_token() == (if n.token_seq().len() == 0 {
            None::<T>
        } else {
            Some(n.token_seq().last())
        }),
    decreases n, 0int,
{
    match n.syntax {
        SyntaxVariant::Token(_) => {},
        SyntaxVariant::Missing => {},
        SyntaxVariant::SyntaxList(l) => {
            lemma_trailing_upto_is_last(l@, l@.len() as int);
            lemma_token_seq_split(l@, 0);
            assert(token_seq_upto(l@, 0) + token_seq_from(l@, 0) =~= token_seq_from(l@, 0));
        },
        SyntaxVariant::ListItem(b) => {
            lemma_trailing_token_is_last(b.list_item);
            lemma_trailing_token_is_last(b.list_separator);
        },
        SyntaxVariant::QualifiedName(b) => {
            lemma_trailing_token_is_last(b.qualified_name_parts);
        },
        SyntaxVariant::AsExpression(b) => {
            lemma_trailing_token_is_last(b.as_left_operand);
            lemma_trailing_token_is_last(b.as_keyword);
            lemma_trailing_token_is_last(b.as_right_operand);
        },
        SyntaxVariant::NamespaceEmptyBody(b) => {
            lemma_trailing_token_is_last(b.namespace_semicolon);
        },
    }
}

/// The trailing-token law for the prefix `s[..i]` scanned backward.
pub proof fn lemma_trailing_upto_is_last<T, V>(s: Seq<Syntax<T, V>>, i: int)
    ensures
        trailing_token_upto(s, i) == (if token_seq_upto(s, i).len() == 0 {
            None::<T>
        } else {
            Some(token_seq_upto(s, i).last())
        }),
    decreases s, i,
{
    if 0 < i <= s.len() {
        lemma_trailing_token_is_last(s[i - 1]);
        lemma_trailing_upto_is_last(s, i - 1);
    }
}

/// The builder contract: the exclusive entry points for `Missing`, `Token`
/// and `SyntaxList` nodes. `make_list` canonicalizes the empty list to a
/// missing node, so a `SyntaxList` node is never empty; a one-element list is
/// still a list, never collapsed to its sole element. The construction
/// context `C` is an opaque parameter object owned by the parser driving the
/// factories; this core never reads it.
pub trait SyntaxTypeBase<C>: Sized {
    type Token: LexableToken;

    type Value: SyntaxValueType<Self::Token>;

    /// The kind tag of a built node.
    spec fn node_kind(self) -> SyntaxKind;

    /// The logical children of a built node, in order.
    spec fn node_children(self) -> Seq<Self>;

    /// The wrapped token of a built node, if it is a token leaf.
    spec fn node_token(self) -> Option<Self::Token>;

    /// The value annotation computed when the node was built.
    spec fn node_value(self) -> Self::Value;

    /// Builds the canonical zero-width placeholder for an absent construct.
    fn make_missing(ctx: &C, offset: usize) -> (r: Self)
        ensures
            r.node_kind() == SyntaxKind::Missing,
            r.node_children() == Seq::<Self>::empty(),
            r.node_token() is None,
            r.node_value() == Self::Value::spec_from_children(
                SyntaxKind::Missing,
                offset,
                Seq::<Self::Value>::empty(),
            ),
    ;

    /// Wraps one lexed token as a leaf node.
    fn make_token(ctx: &C, arg: Self::Token) -> (r: Self)
        ensures
            r.node_kind() == SyntaxKind::Token,
            r.node_children() == Seq::<Self>::empty(),
            r.node_token() == Some(arg),
            r.node_value() == Self::Value::spec_from_token(arg),
    ;

    /// Wraps nodes as a `SyntaxList`, aggregating the value from each item's
    /// node value — except that the empty list is built as `make_missing`
    /// would build it: list-ness of nothing is not representable.
    fn make_list(ctx: &C, arg: Vec<Self>, offset: usize) -> (r: Self)
        ensures
            arg@.len() == 0 ==> {
                &&& r.node_kind() == SyntaxKind::Missing
                &&& r.node_children() == Seq::<Self>::empty()
                &&& r.node_token() is None
                &&& r.node_value() == Self::Value::spec_from_children(
                    SyntaxKind::Missing,
                    offset,
                    Seq::<Self::Value>::empty(),
                )
            },
            arg@.len() > 0 ==> {
                &&& r.node_kind() == SyntaxKind::SyntaxList
                &&& r.node_children() == arg@
                &&& r.node_token() is None
                &&& r.node_value() == Self::Value::spec_from_children(
                    SyntaxKind::SyntaxList,
                    offset,
                    arg@.map_values(|n: Self| n.node_value()),
                )
            },
    ;

    /// Read-only access to the node's value annotation.
    fn value(&self) -> (r: &Self::Value)
        ensures
            *r == self.node_value(),
    ;
}

impl<T, V, C> SyntaxTypeBase<C> for Syntax<T, V> where
    T: LexableToken,
    V: SyntaxValueType<T>,
 {
    type Token = T;

    type Value = V;

    open spec fn node_kind(self) -> SyntaxKind {
        self.spec_kind()
    }

    open spec fn node_children(self) -> Seq<Self> {
        self.spec_children()
    }

    open spec fn node_token(self) -> Option<T> {
        self.spec_token()
    }

    open spec fn node_value(self) -> V {
        self.value
    }

    fn make_missing(_ctx: &C, offset: usize) -> Self {
        let values: Vec<&V> = Vec::new();
        let value = V::from_children(SyntaxKind::Missing, offset, &values);
        proof {
            assert(values@.map_values(|v: &V| *v) =~= Seq::<V>::empty());
        }
        Syntax::make(SyntaxVariant::Missing, value)
    }

    fn make_token(_ctx: &C, arg: T) -> Self {
        let value = V::from_token(&arg);
        Syntax::make(SyntaxVariant::Token(Box::new(arg)), value)
    }

    fn make_list(ctx: &C, arg: Vec<Self>, offset: usize) -> Self {
        if arg.len() == 0 {
            Self::make_missing(ctx, offset)
        } else {
            let mut values: Vec<&V> = Vec::new();
            let n = arg.len();
            for i in 0..n
                invariant
                    n == arg@.len(),
                    values@.len() == i,
                    forall|j: int| 0 <= j < i ==> *(#[trigger] values@[j]) == arg@[j].value,
            {
                values.push(&arg[i].value);
            }
            let value = V::from_children(SyntaxKind::SyntaxList, offset, &values);
            proof {
                assert(values@.map_values(|v: &V| *v) =~= arg@.map_values(
                    |s: Syntax<T, V>| <Syntax<T, V> as SyntaxTypeBase<C>>::node_value(s),
                ));
            }
            Syntax::make(SyntaxVariant::SyntaxList(arg), value)
        }
    }

    fn value(&self) -> &V {
        &self.value
    }
}

impl<T, V> Syntax<T, V> where T: LexableToken, V: SyntaxValueType<T> {
    /// Pairs a variant with an already-computed value.
    pub fn make(syntax: SyntaxVariant<T, V>, value: V) -> (r: Self)
        ensures
            r.syntax == syntax,
            r.value == value,
    {
        Syntax { syntax, value }
    }

    /// True exactly of a token leaf whose token's kind is `kind`; false for
    /// every other variant.
    pub open spec fn spec_is_specific_token(&self, kind: TokenKind) -> bool {
        match self.spec_token() {
            Some(t) => t.spec_kind() == kind,
            None => false,
        }
    }

    /// The flattening view: a list's elements, nothing for a missing node,
    /// and the node itself for every other variant.
    pub open spec fn spec_node_to_list(&self) -> Seq<Syntax<T, V>> {
        match self.syntax {
            SyntaxVariant::SyntaxList(l) => l@,
            SyntaxVariant::Missing => Seq::empty(),
            _ => seq![*self],
        }
    }

    /// True exactly of a qualified name whose last flattened part is a list
    /// item carrying a non-missing trailing separator, as in `Foo\Bar\`.
    pub open spec fn spec_is_namespace_prefix(&self) -> bool {
        match self.syntax {
            SyntaxVariant::QualifiedName(b) => {
                let parts = b.qualified_name_parts.spec_node_to_list();
                parts.len() > 0 && match parts.last().syntax {
                    SyntaxVariant::ListItem(item) => item.list_separator.spec_kind()
                        != SyntaxKind::Missing,
                    _ => false,
                }
            },
            _ => false,
        }
    }

    /// The kind tag of this node.
    pub fn kind(&self) -> (r: SyntaxKind)
        ensures
            r == self.spec_kind(),
    {
        self.syntax.kind()
    }

    /// Whether this node is a token leaf of kind `kind`.
    pub fn is_specific_token(&self, kind: TokenKind) -> (r: bool)
        ensures
            r == self.spec_is_specific_token(kind),
    {
        match &self.syntax {
            SyntaxVariant::Token(t) => t.kind() == kind,
            _ => false,
        }
    }

    /// Whether this node is the `public` modifier token.
    pub fn is_public(&self) -> (r: bool)
        ensures
            r == self.spec_is_specific_token(TokenKind::Public),
    {
        self.is_specific_token(TokenKind::Public)
    }

    /// Whether this node is the `private` modifier token.
    pub fn is_private(&self) -> (r: bool)
        ensures
            r == self.spec_is_specific_token(TokenKind::Private),
    {
        self.is_specific_token(TokenKind::Private)
    }

    /// Whether this node is the `protected` modifier token.
    pub fn is_protected(&self) -> (r: bool)
        ensures
            r == self.spec_is_specific_token(TokenKind::Protected),
    {
        self.is_specific_token(TokenKind::Protected)
    }

    /// Whether this node is the `abstract` modifier token.
    pub fn is_abstract(&self) -> (r: bool)
        ensures
            r == self.spec_is_specific_token(TokenKind::Abstract),
    {
        self.is_specific_token(TokenKind::Abstract)
    }

    /// Whether this node is the `static` modifier token.
    pub fn is_static(&self) -> (r: bool)
        ensures
            r == self.spec_is_specific_token(TokenKind::Static),
    {
        self.is_specific_token(TokenKind::Static)
    }

    /// Whether this node is an ampersand token.
    pub fn is_ampersand(&self) -> (r: bool)
        ensures
            r == self.spec_is_specific_token(TokenKind::Ampersand),
    {
        self.is_specific_token(TokenKind::Ampersand)
    }

    /// Whether this node is an ellipsis token.
    pub fn is_ellipsis(&self) -> (r: bool)
        ensures
            r == self.spec_is_specific_token(TokenKind::DotDotDot),
    {
        self.is_specific_token(TokenKind::DotDotDot)
    }

    /// Whether this node is the `final` modifier token.
    pub fn is_final(&self) -> (r: bool)
        ensures
            r == self.spec_is_specific_token(TokenKind::Final),
    {
        self.is_specific_token(TokenKind::Final)
    }

    /// Whether this node is the `async` modifier token.
    pub fn is_async(&self) -> (r: bool)
        ensures
            r == self.spec_is_specific_token(TokenKind::Async),
    {
        self.is_specific_token(TokenKind::Async)
    }

    /// Whether this node is the `construct` keyword token.
    pub fn is_construct(&self) -> (r: bool)
        ensures
            r == self.spec_is_specific_token(TokenKind::Construct),
    {
        self.is_specific_token(TokenKind::Construct)
    }

    /// Whether this node is the `void` keyword token.
    pub fn is_void(&self) -> (r: bool)
        ensures
            r == self.spec_is_specific_token(TokenKind::Void),
    {
        self.is_specific_token(TokenKind::Void)
    }

    /// Whether this node is an `as` expression shape.
    pub fn is_as_expression(&self) -> (r: bool)
        ensures
            r == (self.spec_kind() == SyntaxKind::AsExpression),
    {
        self.kind() == SyntaxKind::AsExpression
    }

    /// Whether this node is the canonical zero-width placeholder.
    pub fn is_missing(&self) -> (r: bool)
        ensures
            r == (self.spec_kind() == SyntaxKind::Missing),
    {
        self.kind() == SyntaxKind::Missing
    }

    /// Whether this node is an empty namespace body shape.
    pub fn is_namespace_empty_body(&self) -> (r: bool)
        ensures
            r == (self.spec_kind() == SyntaxKind::NamespaceEmptyBody),
    {
        self.kind() == SyntaxKind::NamespaceEmptyBody
    }

    /// The flattening view, collapsing "0, 1, or many" into one sequence: a
    /// list yields its elements, a missing node yields nothing, and any other
    /// node yields itself alone.
    pub fn syntax_node_to_list<'a>(&'a self) -> (r: Vec<&'a Syntax<T, V>>)
        ensures
            r@.map_values(|x: &Syntax<T, V>| *x) == self.spec_node_to_list(),
            r@.len() == if self.spec_kind() == SyntaxKind::Missing {
                0int
            } else if self.spec_kind() == SyntaxKind::SyntaxList {
                self.spec_children().len() as int
            } else {
                1int
            },
    {
        let mut r: Vec<&'a Syntax<T, V>> = Vec::new();
        match &self.syntax {
            SyntaxVariant::SyntaxList(l) => {
                let n = l.len();
                for i in 0..n
                    invariant
                        n == l@.len(),
                        r@.len() == i,
                        forall|j: int| 0 <= j < i ==> *(#[trigger] r@[j]) == l@[j],
                {
                    r.push(&l[i]);
                }
            },
            SyntaxVariant::Missing => {},
            _ => {
                r.push(self);
            },
        }
        proof {
            assert(r@.map_values(|x: &Syntax<T, V>| *x) =~= self.spec_node_to_list());
        }
        r
    }

    /// Whether this node is a qualified name written with a trailing
    /// separator, such as `Foo\Bar\` — a namespace prefix rather than a full
    /// name.
    pub fn is_namespace_prefix(&self) -> (r: bool)
        ensures
            r == self.spec_is_namespace_prefix(),
    {
        match &self.syntax {
            SyntaxVariant::QualifiedName(b) => {
                let parts = b.qualified_name_parts.syntax_node_to_list();
                if parts.len() == 0 {
                    false
                } else {
                    let last: &Syntax<T, V> = parts[parts.len() - 1];
                    proof {
                        assert(*last == b.qualified_name_parts.spec_node_to_list().last());
                    }
                    match &last.syntax {
                        SyntaxVariant::ListItem(item) => !item.list_separator.is_missing(),
                        _ => false,
                    }
                }
            },
            _ => false,
        }
    }

    /// The wrapped token, if this node is a token leaf.
    fn get_token(&self) -> (r: Option<&T>)
        ensures
            r matches Some(t) ==> self.spec_token() == Some(*t),
            r is None ==> self.spec_token() is None,
    {
        match &self.syntax {
            SyntaxVariant::Token(t) => Some(&**t),
            _ => None,
        }
    }

    /// The first token of the subtree, by repeated descent into the first
    /// child that yields one; `None` exactly when the subtree contains no
    /// token leaf.
    pub fn leading_token(&self) -> (r: Option<&T>)
        ensures
            r matches Some(t) ==> self.spec_leading_token() == Some(*t),
            r is None ==> self.spec_leading_token() is None,
        decreases *self,
    {
        match &self.syntax {
            SyntaxVariant::Token(_) => self.get_token(),
            SyntaxVariant::Missing => None,
            SyntaxVariant::SyntaxList(l) => {
                let n = l.len();
                let mut i: usize = 0;
                while i < n
                    invariant
                        n == l@.len(),
                        i <= n,
                        leading_token_from(l@, 0) == leading_token_from(l@, i as int),
                        self.syntax matches SyntaxVariant::SyntaxList(x) && x@ == l@,
                    decreases n - i,
                {
                    let node = &l[i];
                    match node.leading_token() {
                        Some(t) => {
                            return Some(t);
                        },
                        None => {
                            proof {
                                assert(leading_token_from(l@, i as int) == leading_token_from(
                                    l@,
                                    i + 1,
                                ));
                            }
                            i = i + 1;
                        },
                    }
                }
                None
            },
            SyntaxVariant::ListItem(b) => {
                match b.list_item.leading_token() {
                    Some(t) => Some(t),
                    None => b.list_separator.leading_token(),
                }
            },
            SyntaxVariant::QualifiedName(b) => b.qualified_name_parts.leading_token(),
            SyntaxVariant::AsExpression(b) => {
                match b.as_left_operand.leading_token() {
                    Some(t) => Some(t),
                    None => match b.as_keyword.leading_token() {
                        Some(t) => Some(t),
                        None => b.as_right_operand.leading_token(),
                    },
                }
            },
            SyntaxVariant::NamespaceEmptyBody(b) => b.namespace_semicolon.leading_token(),
        }
    }

    /// The last token of the subtree, by repeated descent into the last child
    /// that yields one; `None` exactly when the subtree contains no token
    /// leaf.
    pub fn trailing_token(&self) -> (r: Option<&T>)
        ensures
            r matches Some(t) ==> self.spec_trailing_token() == Some(*t),
            r is None ==> self.spec_trailing_token() is None,
        decreases *self,
    {
        match &self.syntax {
            SyntaxVariant::Token(_) => self.get_token(),
            SyntaxVariant::Missing => None,
            SyntaxVariant::SyntaxList(l) => {
                let n = l.len();
                let mut i: usize = n;
                while i > 0
                    invariant
                        n == l@.len(),
                        i <= n,
                        trailing_token_upto(l@, n as int) == trailing_token_upto(l@, i as int),
                        self.syntax matches SyntaxVariant::SyntaxList(x) && x@ == l@,
                    decreases i,
                {
                    let node = &l[i - 1];
                    match node.trailing_token() {
                        Some(t) => {
                            return Some(t);
                        },
                        None => {
                            proof {
                                assert(trailing_token_upto(l@, i as int) == trailing_token_upto(
                                    l@,
                                    i - 1,
                                ));
                            }
                            i = i - 1;
                        },
                    }
                }
                None
            },
            SyntaxVariant::ListItem(b) => {
                match b.list_separator.trailing_token() {
                    Some(t) => Some(t),
                    None => b.list_item.trailing_token(),
                }
            },
            SyntaxVariant::QualifiedName(b) => b.qualified_name_parts.trailing_token(),
            SyntaxVariant::AsExpression(b) => {
                match b.as_right_operand.trailing_token() {
                    Some(t) => Some(t),
                    None => match b.as_keyword.trailing_token() {
                        Some(t) => Some(t),
                        None => b.as_left_operand.trailing_token(),
                    },
                }
            },
            SyntaxVariant::NamespaceEmptyBody(b) => b.namespace_semicolon.trailing_token(),
        }
    }

    /// A fresh double-ended iterator over this node's logical children.
    pub fn iter_children<'a>(&'a self) -> (r: SyntaxChildrenIterator<'a, T, V>)
        ensures
            r.syntax == &self.syntax,
            r.index == 0,
            r.index_back == 0,
    {
        self.syntax.iter_children()
    }

    /// The children collected by driving the iterator forward to exhaustion:
    /// they come out in child order.
    pub fn collect_children<'a>(&'a self) -> (r: Vec<&'a Syntax<T, V>>)
        ensures
            r@.map_values(|x: &Syntax<T, V>| *x) == self.spec_children(),
    {
        let count = self.syntax.child_count();
        let mut it = self.iter_children();
        let mut r: Vec<&'a Syntax<T, V>> = Vec::new();
        while it.index + it.index_back < count
            invariant
                it.wf(),
                it.syntax.spec_children() == self.spec_children(),
                count == self.spec_children().len(),
                it.index_back == 0,
                r@.len() == it.index,
                r@.map_values(|x: &Syntax<T, V>| *x) == self.spec_children().subrange(
                    0,
                    it.index as int,
                ),
            decreases count - it.index,
        {
            match it.next() {
                Some(x) => {
                    r.push(x);
                    proof {
                        assert(r@.map_values(|x: &Syntax<T, V>| *x) =~= self.spec_children()
                            .subrange(0, it.index as int));
                    }
                },
                None => {
                    proof {
                        assert(false);
                    }
                },
            }
        }
        proof {
            assert(self.spec_children().subrange(0, count as int) =~= self.spec_children());
        }
        r
    }

    /// The children collected by driving the iterator backward to exhaustion:
    /// they come out in reverse child order. Together with
    /// `collect_children`, this is the two-sided traversal law: the forward
    /// sequence equals the backward sequence reversed, and each child is
    /// visited exactly once.
    pub fn collect_children_rev<'a>(&'a self) -> (r: Vec<&'a Syntax<T, V>>)
        ensures
            r@.map_values(|x: &Syntax<T, V>| *x) == self.spec_children().reverse(),
    {
        let count = self.syntax.child_count();
        let mut it = self.iter_children();
        let mut r: Vec<&'a Syntax<T, V>> = Vec::new();
        while it.index + it.index_back < count
            invariant
                it.wf(),
                it.syntax.spec_children() == self.spec_children(),
                count == self.spec_children().len(),
                it.index == 0,
                r@.len() == it.index_back,
                forall|j: int|
                    0 <= j < it.index_back ==> *(#[trigger] r@[j]) == self.spec_children()[count - 1
                        - j],
            decreases count - it.index_back,
        {
            match it.next_back() {
                Some(x) => {
                    r.push(x);
                },
                None => {
                    proof {
                        assert(false);
                    }
                },
            }
        }
        proof {
            assert(r@.map_values(|x: &Syntax<T, V>| *x) =~= self.spec_children().reverse());
        }
        r
    }

    /// Destructively extracts every logical child, in order, demoting this
    /// node to `Missing` as a placeholder. The value is left as it was: it is
    /// only replaced together with the variant, by `replace_children`. A
    /// token leaf has no logical children, so draining it discards the token.
    pub fn drain_children(&mut self) -> (r: Vec<Self>)
        ensures
            r@ == old(self).spec_children(),
            final(self).syntax == SyntaxVariant::<T, V>::Missing,
            final(self).value == old(self).value,
    {
        let mut syntax = SyntaxVariant::Missing;
        core::mem::swap(&mut self.syntax, &mut syntax);
        match syntax {
            SyntaxVariant::Token(_) => Vec::new(),
            SyntaxVariant::Missing => Vec::new(),
            SyntaxVariant::SyntaxList(l) => l,
            SyntaxVariant::ListItem(b) => {
                let c = *b;
                let mut r = Vec::new();
                r.push(c.list_item);
                r.push(c.list_separator);
                proof {
                    assert(r@ =~= old(self).spec_children());
                }
                r
            },
            SyntaxVariant::QualifiedName(b) => {
                let c = *b;
                let mut r = Vec::new();
                r.push(c.qualified_name_parts);
                proof {
                    assert(r@ =~= old(self).spec_children());
                }
                r
            },
            SyntaxVariant::AsExpression(b) => {
                let c = *b;
                let mut r = Vec::new();
                r.push(c.as_left_operand);
                r.push(c.as_keyword);
                r.push(c.as_right_operand);
                proof {
                    assert(r@ =~= old(self).spec_children());
                }
                r
            },
            SyntaxVariant::NamespaceEmptyBody(b) => {
                let c = *b;
                let mut r = Vec::new();
                r.push(c.namespace_semicolon);
                proof {
                    assert(r@ =~= old(self).spec_children());
                }
                r
            },
        }
    }

    /// Rebuilds a variant of kind `kind` from a freshly supplied ordered
    /// child sequence, re-slotting children into a shape's named fields by
    /// position — the inverse of `drain_children`.
    pub fn from_children(kind: SyntaxKind, children: Vec<Self>) -> (r: SyntaxVariant<T, V>)
        requires
            reconstructible(kind, children@.len()),
        ensures
            variant_matches(kind, children@, r),
    {
        match kind {
            SyntaxKind::Missing => SyntaxVariant::Missing,
            SyntaxKind::SyntaxList => SyntaxVariant::SyntaxList(children),
            SyntaxKind::ListItem => {
                let mut c = children;
                let list_item = c.remove(0);
                let list_separator = c.remove(0);
                SyntaxVariant::ListItem(Box::new(ListItemChildren { list_item, list_separator }))
            },
            SyntaxKind::QualifiedName => {
                let mut c = children;
                let qualified_name_parts = c.remove(0);
                SyntaxVariant::QualifiedName(
                    Box::new(QualifiedNameChildren { qualified_name_parts }),
                )
            },
            SyntaxKind::AsExpression => {
                let mut c = children;
                let as_left_operand = c.remove(0);
                let as_keyword = c.remove(0);
                let as_right_operand = c.remove(0);
                SyntaxVariant::AsExpression(
                    Box::new(AsExpressionChildren { as_left_operand, as_keyword, as_right_operand }),
                )
            },
            SyntaxKind::NamespaceEmptyBody => {
                let mut c = children;
                let namespace_semicolon = c.remove(0);
                SyntaxVariant::NamespaceEmptyBody(
                    Box::new(NamespaceEmptyBodyChildren { namespace_semicolon }),
                )
            },
            // a token leaf cannot be rebuilt from children; excluded by the
            // precondition
            SyntaxKind::Token => unreached(),
        }
    }

    /// Replaces this node's variant with one of kind `kind` rebuilt from
    /// `children` — the inverse of `drain_children`. The value annotation is
    /// kept as it was.
    pub fn replace_children(&mut self, kind: SyntaxKind, children: Vec<Self>)
        requires
            reconstructible(kind, children@.len()),
        ensures
            variant_matches(kind, children@, final(self).syntax),
            final(self).syntax.spec_kind() == kind,
            final(self).spec_children() == children@,
            final(self).value == old(self).value,
    {
        self.syntax = Self::from_children(kind, children);
        proof {
            lemma_variant_matches_observable(kind, children@, self.syntax);
        }
    }
}

/// Whether a variant of kind `kind` can be rebuilt from `n` children: the
/// child count must fit the shape, a list must keep its never-empty
/// invariant, and a token leaf cannot be rebuilt at all (its token is not a
/// child).
pub open spec fn reconstructible(kind: SyntaxKind, n: nat) -> bool {
    match kind {
        SyntaxKind::Missing => n == 0,
        SyntaxKind::Token => false,
        SyntaxKind::SyntaxList => n >= 1,
        SyntaxKind::ListItem => n == 2,
        SyntaxKind::QualifiedName => n == 1,
        SyntaxKind::AsExpression => n == 3,
        SyntaxKind::NamespaceEmptyBody => n == 1,
    }
}

/// Exactly the variants that rebuilding a kind-`kind` node from `children`
/// may produce: the children fill the shape's fields in order.
pub open spec fn variant_matches<T, V>(
    kind: SyntaxKind,
    children: Seq<Syntax<T, V>>,
    w: SyntaxVariant<T, V>,
) -> bool {
    match kind {
        SyntaxKind::Missing => w == SyntaxVariant::<T, V>::Missing,
        SyntaxKind::Token => false,
        SyntaxKind::SyntaxList => w matches SyntaxVariant::SyntaxList(l) && l@ == children,
        SyntaxKind::ListItem => w matches SyntaxVariant::ListItem(b) && b.list_item == children[0]
            && b.list_separator == children[1],
        SyntaxKind::QualifiedName => w matches SyntaxVariant::QualifiedName(b)
            && b.qualified_name_parts == children[0],
        SyntaxKind::AsExpression => w matches SyntaxVariant::AsExpression(b) && b.as_left_operand
            == children[0] && b.as_keyword == children[1] && b.as_right_operand == children[2],
        SyntaxKind::NamespaceEmptyBody => w matches SyntaxVariant::NamespaceEmptyBody(b)
            && b.namespace_semicolon == children[0],
    }
}

/// A rebuilt variant is observably what was asked for: it carries the kind
/// it was rebuilt as, and its logical children are exactly the supplied
/// sequence.
pub proof fn lemma_variant_matches_observable<T, V>(
    kind: SyntaxKind,
    children: Seq<Syntax<T, V>>,
    w: SyntaxVariant<T, V>,
)
    requires
        reconstructible(kind, children.len()),
        variant_matches(kind, children, w),
    ensures
        w.spec_kind() == kind,
        w.spec_children() == children,
{
    match kind {
        SyntaxKind::SyntaxList => {
            assert(w.spec_children() =~= children);
        },
        _ => {
            assert(w.spec_children() =~= children);
        },
    }
}

/// The reconstruction round-trip law: draining a node's children and
/// rebuilding with the node's own kind is the identity on what is observable
/// — the kind and the children. Every kind supports it except `Token`, whose
/// payload is not a child; a list keeps its never-empty invariant.
pub proof fn lemma_reconstruct_roundtrip<T, V>(v: SyntaxVariant<T, V>)
    requires
        v.spec_kind() != SyntaxKind::Token,
        v.spec_kind() == SyntaxKind::SyntaxList ==> v.spec_children().len() > 0,
    ensures
        reconstructible(v.spec_kind(), v.spec_children().len()),
        variant_matches(v.spec_kind(), v.spec_children(), v),
        forall|w: SyntaxVariant<T, V>|
            variant_matches(v.spec_kind(), v.spec_children(), w) ==> w.spec_kind() == v.spec_kind()
                && w.spec_children() == v.spec_children(),
{
    assert forall|w: SyntaxVariant<T, V>|
        variant_matches(v.spec_kind(), v.spec_children(), w) implies w.spec_kind() == v.spec_kind()
        && w.spec_children() == v.spec_children() by {
        lemma_variant_matches_observable(v.spec_kind(), v.spec_children(), w);
    }
}

} // verus!
