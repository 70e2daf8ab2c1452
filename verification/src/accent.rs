//! Accents: the characters that are accepted as accents, and how an accent
//! operand is reduced to one of them.

use vstd::prelude::*;
use vstd::string::StrSliceExecFns;
use crate::content::{AccNode, Content};
use crate::error::{ErrorKind, SourceError, Span};
use crate::symbols::{SymbolTable, SymbolTableView};

verus! {

/// The canonical combining codepoint of the accent that `c` spells, if `c`
/// spells one. Each accent is spelled by its combining codepoint and by the
/// characters that people type in its place.
pub open spec fn canonical_accent(c: char) -> Option<char> {
    if c == '`' || c == '\u{300}' {
        Some('\u{300}')
    } else if c == '\u{b4}' || c == '\u{301}' {
        Some('\u{301}')
    } else if c == '^' || c == '\u{302}' {
        Some('\u{302}')
    } else if c == '~' || c == '\u{223c}' || c == '\u{303}' {
        Some('\u{303}')
    } else if c == '\u{af}' || c == '\u{304}' {
        Some('\u{304}')
    } else if c == '\u{203e}' || c == '\u{305}' {
        Some('\u{305}')
    } else if c == '\u{2d8}' || c == '\u{306}' {
        Some('\u{306}')
    } else if c == '.' || c == '\u{22c5}' || c == '\u{307}' {
        Some('\u{307}')
    } else if c == '\u{a8}' || c == '\u{308}' {
        Some('\u{308}')
    } else if c == '\u{2c7}' || c == '\u{30c}' {
        Some('\u{30c}')
    } else if c == '\u{2192}' || c == '\u{20d7}' {
        Some('\u{20d7}')
    } else {
        None
    }
}

/// Maps a character that spells an accent to the accent's canonical
/// combining codepoint.
pub fn normalize_accent(c: char) -> (accent: Option<char>)
    ensures
        accent == canonical_accent(c),
{
    match c {
        '`' | '\u{300}' => Some('\u{300}'),  // Grave
        '\u{b4}' | '\u{301}' => Some('\u{301}'),  // Acute
        '^' | '\u{302}' => Some('\u{302}'),  // Circumflex
        '~' | '\u{223c}' | '\u{303}' => Some('\u{303}'),  // Tilde
        '\u{af}' | '\u{304}' => Some('\u{304}'),  // Macron
        '\u{203e}' | '\u{305}' => Some('\u{305}'),  // Overline
        '\u{2d8}' | '\u{306}' => Some('\u{306}'),  // Breve
        '.' | '\u{22c5}' | '\u{307}' => Some('\u{307}'),  // Dot
        '\u{a8}' | '\u{308}' => Some('\u{308}'),  // Diaeresis
        '\u{2c7}' | '\u{30c}' => Some('\u{30c}'),  // Caron
        '\u{2192}' | '\u{20d7}' => Some('\u{20d7}'),  // Arrow
        _ => None,
    }
}

/// The node that an accent operand stands for: the operand itself, or, for
/// a formula, its only piece. A formula of no or several pieces stands for
/// nothing.
pub open spec fn operand_leaf(operand: Content) -> Option<Content> {
    match operand {
        Content::Math(node) => if node.children@.len() == 1 {
            Some(node.children@[0])
        } else {
            None
        },
        _ => Some(operand),
    }
}

/// The character that the leaf of an accent operand holds: the only
/// character of an atom, or the codepoint of a symbol.
pub open spec fn leaf_char(leaf: Content, symbols: SymbolTableView) -> Result<char, ErrorKind> {
    match leaf {
        Content::Atom(atom) => if atom.0@.len() == 1 {
            Ok(atom.0@[0])
        } else {
            Err(ErrorKind::NotAnAccent)
        },
        Content::Symbol { name, span } => match symbols.resolve(name@) {
            Some(c) => Ok(c),
            None => Err(ErrorKind::UnknownSymbol),
        },
        _ => Err(ErrorKind::NotAnAccent),
    }
}

/// The accent that an operand spells, in canonical form, or why it spells
/// none.
pub open spec fn accent_of(operand: Content, symbols: SymbolTableView) -> Result<char, ErrorKind> {
    match operand_leaf(operand) {
        None => Err(ErrorKind::NotAnAccent),
        Some(leaf) => match leaf_char(leaf, symbols) {
            Err(kind) => Err(kind),
            Ok(c) => match canonical_accent(c) {
                Some(accent) => Ok(accent),
                None => Err(ErrorKind::NotAnAccent),
            },
        },
    }
}

/// Reduces an accent operand to the canonical codepoint of its accent.
///
/// Fails with `UnknownSymbol` if the operand is a symbol that the table
/// does not know, and with `NotAnAccent` if the operand is empty, is
/// anything but one character, or is no accent.
pub fn extract(operand: &Content, symbols: &SymbolTable) -> (r: Result<char, ErrorKind>)
    ensures
        r == accent_of(*operand, symbols@),
{
    let leaf = match operand {
        Content::Math(node) => {
            if node.children.len() != 1 {
                return Err(ErrorKind::NotAnAccent);
            }
            &node.children[0]
        },
        _ => operand,
    };
    let c = match leaf {
        Content::Atom(atom) => {
            let text = atom.0.as_str();
            if text.unicode_len() != 1 {
                return Err(ErrorKind::NotAnAccent);
            }
            text.get_char(0)
        },
        Content::Symbol { name, span: _ } => match symbols.resolve(name.as_str()) {
            Some(c) => c,
            None => {
                return Err(ErrorKind::UnknownSymbol);
            },
        },
        _ => {
            return Err(ErrorKind::NotAnAccent);
        },
    };
    match normalize_accent(c) {
        Some(accent) => Ok(accent),
        None => Err(ErrorKind::NotAnAccent),
    }
}

impl AccNode {
    /// Whether the node holds its accent in canonical form, as every node
    /// that [`AccNode::construct`] builds does.
    pub open spec fn wf(self) -> bool {
        canonical_accent(self.accent) == Some(self.accent)
    }

    /// Builds an accented node from a base and an accent operand that
    /// stands at `span`.
    ///
    /// The node holds the accent in canonical form, so operands that spell
    /// the same accent give equal nodes. An operand that spells no accent
    /// fails with the error that [`accent_of`] names, at `span`.
    pub fn construct(base: Content, accent: &Content, span: Span, symbols: &SymbolTable) -> (r:
        Result<Content, SourceError>)
        ensures
            r == match accent_of(*accent, symbols@) {
                Ok(c) => Ok::<Content, SourceError>(
                    Content::Acc(Box::new(AccNode { base, accent: c })),
                ),
                Err(kind) => Err::<Content, SourceError>(SourceError { kind, span }),
            },
            r matches Ok(Content::Acc(node)) ==> node.wf(),
    {
        match extract(accent, symbols) {
            Ok(c) => Ok(Content::Acc(Box::new(AccNode { base, accent: c }))),
            Err(kind) => Err(SourceError { kind, span }),
        }
    }
}

/// The canonical codepoint of an accent spells that accent itself: to
/// normalize twice is to normalize once.
pub proof fn lemma_canonical_accent_is_fixed(c: char)
    ensures
        canonical_accent(c) matches Some(accent) ==> canonical_accent(accent) == Some(accent),
{
}

/// An accent operand that holds an alias and one that holds the canonical
/// codepoint of the same accent spell the same accent, so the nodes built
/// from them, and their markup, are the same.
pub proof fn lemma_alias_spells_canonical(
    alias: Content,
    canonical: Content,
    c: char,
    symbols: SymbolTableView,
)
    requires
        alias matches Content::Atom(atom) && atom.0@ == seq![c],
        canonical_accent(c) matches Some(accent) && (canonical matches Content::Atom(atom)
            && atom.0@ == seq![accent]),
    ensures
        accent_of(alias, symbols) == accent_of(canonical, symbols),
        accent_of(alias, symbols) == Ok::<char, ErrorKind>(canonical_accent(c)->0),
{
}

} // verus!
