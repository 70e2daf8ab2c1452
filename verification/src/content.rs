//! The nodes of a formula tree.

use vstd::prelude::*;
use crate::error::Span;
use crate::text::str_eq;

verus! {

/// A piece of formula content: exactly one of a closed set of nodes.
///
/// Every node owns its children, so a value of this type is a finite tree.
#[derive(Debug, PartialEq, Eq, Hash)]
pub enum Content {
    /// A whole formula.
    Math(MathNode),
    /// A literal token.
    Atom(AtomNode),
    /// A symbol that the symbol table resolves by name. The location is
    /// where the symbol stands in the source.
    Symbol { name: String, span: Span },
    /// Text that is rendered upright and verbatim.
    Text(String),
    /// A weak space.
    Space,
    /// A forced line break.
    Linebreak,
    /// Several pieces, one after the other.
    Sequence(Vec<Content>),
    /// An accented base.
    Acc(Box<AccNode>),
    /// A fraction.
    Frac(Box<FracNode>),
    /// A binomial.
    Binom(Box<BinomNode>),
    /// A base with a subscript, a superscript or both.
    Script(Box<ScriptNode>),
    /// An alignment point.
    AlignPoint(AlignPointNode),
    /// A square root.
    Sqrt(Box<SqrtNode>),
    /// A floored expression.
    Floor(Box<FloorNode>),
    /// A ceiled expression.
    Ceil(Box<CeilNode>),
}

/// A mathematical formula.
#[derive(Debug, PartialEq, Eq, Hash)]
pub struct MathNode {
    /// Whether the formula is displayed as a separate block.
    pub block: bool,
    /// The pieces of the formula.
    pub children: Vec<Content>,
}

/// An atom in a formula: `x`, `+`, `12`.
#[derive(Debug, PartialEq, Eq, Hash)]
pub struct AtomNode(pub String);

/// An accented node.
#[derive(Debug, PartialEq, Eq, Hash)]
pub struct AccNode {
    /// The accent base.
    pub base: Content,
    /// The Unicode accent character, in its canonical combining form.
    pub accent: char,
}

/// A mathematical fraction.
#[derive(Debug, PartialEq, Eq, Hash)]
pub struct FracNode {
    /// The numerator.
    pub num: Content,
    /// The denominator.
    pub denom: Content,
}

/// A binomial expression.
#[derive(Debug, PartialEq, Eq, Hash)]
pub struct BinomNode {
    /// The upper index.
    pub upper: Content,
    /// The lower index.
    pub lower: Content,
}

/// A mathematical sub- and/or superscript.
#[derive(Debug, PartialEq, Eq, Hash)]
pub struct ScriptNode {
    /// The base.
    pub base: Content,
    /// The subscript.
    pub sub: Option<Content>,
    /// The superscript.
    pub sup: Option<Content>,
}

/// A math alignment point: `&`, `&&`.
///
/// The field is the index of the point, counted from one.
#[derive(Debug, PartialEq, Eq, Hash)]
pub struct AlignPointNode(pub usize);

/// A square root.
#[derive(Debug, PartialEq, Eq, Hash)]
pub struct SqrtNode(pub Content);

/// A floored expression.
#[derive(Debug, PartialEq, Eq, Hash)]
pub struct FloorNode(pub Content);

/// A ceiled expression.
#[derive(Debug, PartialEq, Eq, Hash)]
pub struct CeilNode(pub Content);

impl MathNode {
    /// Builds a formula from its pieces. Without a `block` argument the
    /// formula is set inline.
    pub fn construct(block: Option<bool>, children: Vec<Content>) -> (content: Content)
        ensures
            content == Content::Math(
                MathNode { block: block == Some(true), children },
            ),
    {
        let block = match block {
            Some(b) => b,
            None => false,
        };
        Content::Math(MathNode { block, children })
    }

    /// Reads a field by name. The only field that can be read is `block`.
    pub fn field(&self, name: &str) -> (value: Option<bool>)
        ensures
            value == if name@ == "block"@ {
                Some(self.block)
            } else {
                None
            },
    {
        if str_eq(name, "block") {
            Some(self.block)
        } else {
            None
        }
    }
}

impl AtomNode {
    /// Builds an atom from its text.
    pub fn construct(text: String) -> (content: Content)
        ensures
            content == Content::Atom(AtomNode(text)),
    {
        Content::Atom(AtomNode(text))
    }
}

impl FracNode {
    /// Builds a fraction from numerator and denominator.
    pub fn construct(num: Content, denom: Content) -> (content: Content)
        ensures
            content == Content::Frac(Box::new(FracNode { num, denom })),
    {
        Content::Frac(Box::new(FracNode { num, denom }))
    }
}

impl BinomNode {
    /// Builds a binomial from its upper and lower index.
    pub fn construct(upper: Content, lower: Content) -> (content: Content)
        ensures
            content == Content::Binom(Box::new(BinomNode { upper, lower })),
    {
        Content::Binom(Box::new(BinomNode { upper, lower }))
    }
}

impl ScriptNode {
    /// Builds a base with an optional subscript and superscript.
    pub fn construct(base: Content, sub: Option<Content>, sup: Option<Content>) -> (content:
        Content)
        ensures
            content == Content::Script(Box::new(ScriptNode { base, sub, sup })),
    {
        Content::Script(Box::new(ScriptNode { base, sub, sup }))
    }
}

impl AlignPointNode {
    /// Whether the index is a valid one: alignment points count from one.
    pub open spec fn wf(self) -> bool {
        self.0 >= 1
    }

    /// Builds the alignment point with the given index.
    pub fn construct(index: usize) -> (content: Content)
        requires
            index >= 1,
        ensures
            content == Content::AlignPoint(AlignPointNode(index)),
            content->AlignPoint_0.wf(),
    {
        Content::AlignPoint(AlignPointNode(index))
    }
}

impl SqrtNode {
    /// Builds the square root of an expression.
    pub fn construct(body: Content) -> (content: Content)
        ensures
            content == Content::Sqrt(Box::new(SqrtNode(body))),
    {
        Content::Sqrt(Box::new(SqrtNode(body)))
    }
}

impl FloorNode {
    /// Builds the floor of an expression.
    pub fn construct(body: Content) -> (content: Content)
        ensures
            content == Content::Floor(Box::new(FloorNode(body))),
    {
        Content::Floor(Box::new(FloorNode(body)))
    }
}

impl CeilNode {
    /// Builds the ceiling of an expression.
    pub fn construct(body: Content) -> (content: Content)
        ensures
            content == Content::Ceil(Box::new(CeilNode(body))),
    {
        Content::Ceil(Box::new(CeilNode(body)))
    }
}

} // verus!
