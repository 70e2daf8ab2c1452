//! Conversion of mathematical formula trees into TeX-like markup.
//!
//! A formula is a tree of [`Content`] nodes. The conversion walks the tree
//! once and writes into a [`Texifier`], which settles weak spaces and
//! escapes characters with the help of a [`SymbolTable`].

pub mod accent;
pub mod content;
pub mod error;
pub mod graphemes;
pub mod laws;
pub mod markup;
pub mod names;
pub mod symbols;
pub mod texifier;
pub mod text;
pub mod unparen;

pub use crate::content::{
    AccNode, AlignPointNode, AtomNode, BinomNode, CeilNode, Content, FloorNode, FracNode, MathNode,
    ScriptNode, SqrtNode,
};
pub use crate::error::{ErrorKind, SourceError, Span};
pub use crate::symbols::{NamedSymbol, SymbolEntry, SymbolTable};
pub use crate::texifier::Texifier;
