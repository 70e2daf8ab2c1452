//! The output builder: a buffer of markup with weak spaces and escaping.

use vstd::prelude::*;
use vstd::string::StringExecFns;
use crate::symbols::{SymbolTable, SymbolTableView};

verus! {

/// Whether a character is written to the markup as it stands: ASCII letters
/// and digits, Greek letters, and a fixed set of punctuation.
pub open spec fn is_plain(c: char) -> bool {
    ||| 'a' <= c <= 'z'
    ||| 'A' <= c <= 'Z'
    ||| '0' <= c <= '9'
    ||| '\u{391}' <= c <= '\u{3a9}'
    ||| '\u{3b1}' <= c <= '\u{3c9}'
    ||| c == '*' || c == '+' || c == '-' || c == '?' || c == '!' || c == '=' || c == '<' || c == '>'
    ||| c == ':' || c == ',' || c == ';' || c == '|' || c == '/' || c == '@' || c == '.' || c == '"'
}

/// The markup that stands for one character.
///
/// A character that is neither special nor plain is written as the command
/// that the symbol table has for it; without such a command it leaves no
/// trace in the output.
pub open spec fn escaped(symbols: SymbolTableView, c: char) -> Seq<char> {
    if c == ' ' {
        "\\ "@
    } else if c == '%' || c == '&' || c == '$' || c == '#' {
        seq!['\\', c, ' ']
    } else if c == '{' {
        "\\left\\{"@
    } else if c == '}' {
        "\\right\\}"@
    } else if c == '[' || c == '(' {
        "\\left"@.push(c)
    } else if c == ']' || c == ')' {
        "\\right"@.push(c)
    } else if is_plain(c) {
        seq![c]
    } else {
        match symbols.command(c) {
            Some(name) => seq!['\\'] + name + seq![' '],
            None => Seq::empty(),
        }
    }
}

/// The markup that stands for a text: that of its characters, one after the
/// other.
pub open spec fn escaped_text(symbols: SymbolTableView, text: Seq<char>) -> Seq<char>
    decreases text.len(),
{
    if text.len() == 0 {
        Seq::empty()
    } else {
        escaped(symbols, text[0]) + escaped_text(symbols, text.drop_first())
    }
}

/// The mathematical value of a [`Texifier`].
pub ghost struct TexState {
    /// The markup written so far.
    pub tex: Seq<char>,
    /// Whether the current write position is marked as support.
    pub support: bool,
    /// Whether a weak space is pending whose left side was marked as support.
    pub space: bool,
    /// The symbol table that escaping consults.
    pub symbols: SymbolTableView,
}

impl TexState {
    /// The state of a fresh builder.
    pub open spec fn new(symbols: SymbolTableView) -> TexState {
        TexState { tex: Seq::empty(), support: false, space: false, symbols }
    }

    /// The state after a weak space.
    ///
    /// The space stays pending only if something was written before it and
    /// the position before it was marked as support, or if it follows a
    /// pending weak space. The position after the space is a new one and
    /// carries no mark yet.
    pub open spec fn push_space(self) -> TexState {
        TexState {
            space: self.tex.len() > 0 && (self.space || self.support),
            support: false,
            ..self
        }
    }

    /// The state after the current position was marked as support.
    pub open spec fn support(self) -> TexState {
        TexState { support: true, ..self }
    }

    /// Whether the next write starts with a visible space: a weak space is
    /// pending and the positions on both of its sides were marked.
    pub open spec fn space_shows(self) -> bool {
        self.space && self.support
    }

    /// The state after pending marks were settled.
    pub open spec fn flush(self) -> TexState {
        TexState {
            tex: if self.space_shows() {
                self.tex + "\\ "@
            } else {
                self.tex
            },
            support: false,
            space: false,
            ..self
        }
    }

    /// The state after a verbatim write.
    pub open spec fn push_str(self, s: Seq<char>) -> TexState {
        TexState { tex: self.flush().tex + s, ..self.flush() }
    }

    /// The state after one character was escaped and written.
    pub open spec fn push_escaped(self, c: char) -> TexState {
        self.push_str(escaped(self.symbols, c))
    }
}

/// Builds the markup of a formula.
pub struct Texifier<'a> {
    tex: String,
    support: bool,
    space: bool,
    symbols: &'a SymbolTable,
}

impl<'a> View for Texifier<'a> {
    type V = TexState;

    closed spec fn view(&self) -> TexState {
        TexState {
            tex: self.tex@,
            support: self.support,
            space: self.space,
            symbols: self.symbols@,
        }
    }
}

impl<'a> Texifier<'a> {
    /// Creates a builder with an empty buffer.
    pub fn new(symbols: &'a SymbolTable) -> (t: Texifier<'a>)
        ensures
            t@ == TexState::new(symbols@),
    {
        Texifier { tex: String::new(), support: false, space: false, symbols }
    }

    /// The symbol table that this builder escapes with.
    pub fn symbols(&self) -> (symbols: &'a SymbolTable)
        ensures
            symbols@ == self@.symbols,
    {
        self.symbols
    }

    /// Consumes the builder and returns the markup.
    pub fn finish(self) -> (tex: String)
        ensures
            tex@ == self@.tex,
    {
        self.tex
    }

    /// Records a weak space. Nothing is written yet.
    pub fn push_space(&mut self)
        ensures
            final(self)@ == old(self)@.push_space(),
    {
        self.space = !self.tex.as_str().is_empty() && (self.space || self.support);
        self.support = false;
    }

    /// Marks the current position as support: a weak space next to it may
    /// become visible.
    pub fn support(&mut self)
        ensures
            final(self)@ == old(self)@.support(),
    {
        self.support = true;
    }

    /// Settles a pending weak space: it is written as an explicit space if
    /// both of its sides were marked as support, and dropped otherwise.
    pub fn flush(&mut self)
        ensures
            final(self)@ == old(self)@.flush(),
    {
        if self.space && self.support {
            self.tex.append("\\ ");
        }
        self.space = false;
        self.support = false;
    }

    /// Settles pending marks and writes a string verbatim.
    pub fn push_str(&mut self, s: &str)
        ensures
            final(self)@ == old(self)@.push_str(s@),
    {
        self.flush();
        self.tex.append(s);
    }

    /// Settles pending marks, then escapes a character and writes it.
    pub fn push_escaped(&mut self, c: char)
        ensures
            final(self)@ == old(self)@.push_escaped(c),
    {
        self.flush();
        let ghost before = self.tex@;
        match c {
            ' ' => self.tex.append("\\ "),
            '%' | '&' | '$' | '#' => {
                self.tex.push('\\');
                self.tex.push(c);
                self.tex.push(' ');
                assert(self.tex@ =~= before + seq!['\\', c, ' ']);
            },
            '{' => self.tex.append("\\left\\{"),
            '}' => self.tex.append("\\right\\}"),
            '[' | '(' => {
                self.tex.append("\\left");
                self.tex.push(c);
                assert(self.tex@ =~= before + "\\left"@.push(c));
            },
            ']' | ')' => {
                self.tex.append("\\right");
                self.tex.push(c);
                assert(self.tex@ =~= before + "\\right"@.push(c));
            },
            'a'..='z' | 'A'..='Z' | '0'..='9' | '\u{391}'..='\u{3a9}' | '\u{3b1}'..='\u{3c9}'
            | '*' | '+' | '-' | '?' | '!' | '=' | '<' | '>' | ':' | ',' | ';' | '|' | '/' | '@'
            | '.' | '"' => {
                self.tex.push(c);
                assert(self.tex@ =~= before + seq![c]);
            },
            _ => {
                match self.symbols.command(c) {
                    Some(name) => {
                        self.tex.push('\\');
                        self.tex.append(name.as_str());
                        self.tex.push(' ');
                        assert(self.tex@ =~= before + (seq!['\\'] + name@ + seq![' ']));
                    },
                    None => {
                        assert(self.tex@ =~= before + Seq::<char>::empty());
                    },
                }
            },
        }
    }
}

} // verus!
