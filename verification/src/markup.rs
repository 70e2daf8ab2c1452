//! Conversion of formula nodes into markup.
//!
//! Every node writes into one [`Texifier`]. The conversion stops at the
//! first node that fails, in the order in which the tree is walked: depth
//! first, children from left to right.

use vstd::prelude::*;
use vstd::std_specs::iter::IteratorSpec;
use crate::content::{
    AccNode, AlignPointNode, AtomNode, BinomNode, CeilNode, Content, FloorNode, FracNode, MathNode,
    ScriptNode, SqrtNode,
};
use crate::error::{ErrorKind, SourceError};
use crate::graphemes::{count_graphemes, grapheme_count};
use crate::symbols::{SymbolTable, SymbolTableView};
use crate::texifier::{escaped_text, TexState, Texifier};
use crate::unparen::{unparen, unparened};

verus! {

/// What a conversion leaves behind: the state of the builder, and the error
/// that stopped the conversion, if one did.
pub ghost struct Rendering {
    pub state: TexState,
    pub error: Option<SourceError>,
}

impl Rendering {
    /// A conversion that went through.
    pub open spec fn done(state: TexState) -> Rendering {
        Rendering { state, error: None }
    }

    /// A conversion that stopped with an error.
    pub open spec fn failed(state: TexState, error: SourceError) -> Rendering {
        Rendering { state, error: Some(error) }
    }

    /// What the conversion returns.
    pub open spec fn result(self) -> Result<(), SourceError> {
        match self.error {
            Some(error) => Err(error),
            None => Ok(()),
        }
    }

    /// A verbatim write after the conversion, which happens only if the
    /// conversion went through.
    pub open spec fn push_str(self, s: Seq<char>) -> Rendering {
        if self.error is Some {
            self
        } else {
            Rendering::done(self.state.push_str(s))
        }
    }
}

/// Whether a character of an atom is marked as support on both sides, so
/// that weak spaces next to it can show.
pub open spec fn is_supportive(c: char) -> bool {
    c == '|'
}

/// The state after `text` was written as upright text: one group that holds
/// the markup of the characters. The group is marked as support on both
/// sides, so a weak space that is pending before it shows.
pub open spec fn text_spec(s: TexState, text: Seq<char>) -> TexState {
    TexState {
        tex: (if s.space {
            s.tex + "\\ "@
        } else {
            s.tex
        }) + "\\mathrm{"@ + escaped_text(s.symbols, text) + "}"@,
        support: true,
        space: false,
        symbols: s.symbols,
    }
}

/// The state after the characters of an atom were written one by one: the
/// markup of the characters, with a support mark before the first and after
/// the last character if that character asks for it. Nothing changes for an
/// atom without characters.
pub open spec fn atom_chars_spec(s: TexState, text: Seq<char>) -> TexState {
    if text.len() == 0 {
        s
    } else {
        TexState {
            tex: (if s.space && (s.support || is_supportive(text[0])) {
                s.tex + "\\ "@
            } else {
                s.tex
            }) + escaped_text(s.symbols, text),
            support: is_supportive(text.last()),
            space: false,
            symbols: s.symbols,
        }
    }
}

/// The state after an atom was written: like upright text if it consists
/// of several grapheme clusters (`multi`), and character by character
/// otherwise.
pub open spec fn atom_spec(s: TexState, text: Seq<char>, multi: bool) -> TexState {
    if multi {
        text_spec(s, text)
    } else {
        atom_chars_spec(s, text)
    }
}

/// The state after every character of `text` was escaped and written.
spec fn push_each_escaped(s: TexState, text: Seq<char>) -> TexState
    decreases text.len(),
{
    if text.len() == 0 {
        s
    } else {
        push_each_escaped(s.push_escaped(text[0]), text.drop_first())
    }
}

/// The state after one character of an atom was written.
spec fn push_atom_char(s: TexState, c: char) -> TexState {
    if is_supportive(c) {
        s.support().push_escaped(c).support()
    } else {
        s.push_escaped(c)
    }
}

/// The state after every character of an atom was written.
spec fn push_each_atom_char(s: TexState, text: Seq<char>) -> TexState
    decreases text.len(),
{
    if text.len() == 0 {
        s
    } else {
        push_each_atom_char(push_atom_char(s, text[0]), text.drop_first())
    }
}

/// Without a pending weak space, escaping a text appends the markup of its
/// characters and nothing else.
proof fn lemma_push_each_escaped(s: TexState, text: Seq<char>)
    requires
        !s.space,
    ensures
        push_each_escaped(s, text) == (TexState {
            tex: s.tex + escaped_text(s.symbols, text),
            support: s.support && text.len() == 0,
            space: false,
            symbols: s.symbols,
        }),
    decreases text.len(),
{
    let after = push_each_escaped(s, text);
    if text.len() == 0 {
        assert(after.tex =~= s.tex + escaped_text(s.symbols, text));
    } else {
        lemma_push_each_escaped(s.push_escaped(text[0]), text.drop_first());
        assert(after.tex =~= s.tex + escaped_text(s.symbols, text));
    }
}

/// Writing a group around the escaped characters gives upright text.
proof fn lemma_text_spec(s: TexState, text: Seq<char>)
    ensures
        push_each_escaped(s.support().push_str("\\mathrm{"@), text).push_str("}"@).support()
            == text_spec(s, text),
{
    let opened = s.support().push_str("\\mathrm{"@);
    lemma_push_each_escaped(opened, text);
    let after = push_each_escaped(opened, text).push_str("}"@).support();
    assert(after.tex =~= text_spec(s, text).tex);
}

/// Without a pending weak space, writing the characters of an atom appends
/// their markup and nothing else.
proof fn lemma_push_each_atom_char(s: TexState, text: Seq<char>)
    requires
        !s.space,
    ensures
        push_each_atom_char(s, text) == (TexState {
            tex: s.tex + escaped_text(s.symbols, text),
            support: if text.len() == 0 {
                s.support
            } else {
                is_supportive(text.last())
            },
            space: false,
            symbols: s.symbols,
        }),
    decreases text.len(),
{
    let after = push_each_atom_char(s, text);
    if text.len() == 0 {
        assert(after.tex =~= s.tex + escaped_text(s.symbols, text));
    } else {
        let rest = text.drop_first();
        lemma_push_each_atom_char(push_atom_char(s, text[0]), rest);
        if rest.len() > 0 {
            assert(rest.last() == text.last());
        }
        assert(after.tex =~= s.tex + escaped_text(s.symbols, text));
    }
}

/// Writing the characters of an atom one by one gives the atom's markup.
proof fn lemma_atom_chars_spec(s: TexState, text: Seq<char>)
    ensures
        push_each_atom_char(s, text) == atom_chars_spec(s, text),
{
    if text.len() > 0 {
        let rest = text.drop_first();
        let first = push_atom_char(s, text[0]);
        lemma_push_each_atom_char(first, rest);
        if rest.len() > 0 {
            assert(rest.last() == text.last());
        }
        assert(push_each_atom_char(s, text).tex =~= atom_chars_spec(s, text).tex);
    }
}

/// The conversion of a list of nodes, from left to right, up to the first
/// one that fails.
pub open spec fn texify_all_spec(children: Seq<Content>, s: TexState) -> Rendering
    decreases children, 0int,
{
    if children.len() == 0 {
        Rendering::done(s)
    } else {
        let first = children[0].texify_spec(s);
        if first.error is Some {
            first
        } else {
            texify_all_spec(children.drop_first(), first.state)
        }
    }
}

impl Content {
    /// The conversion of this node, starting from the builder state `s`.
    pub open spec fn texify_spec(self, s: TexState) -> Rendering
        decreases self, 0int,
    {
        match self {
            Content::Space => Rendering::done(s.push_space()),
            Content::Linebreak => Rendering::done(s.push_str("\\"@)),
            Content::Symbol { name, span } => match s.symbols.resolve(name@) {
                Some(c) => Rendering::done(s.push_escaped(c)),
                None => Rendering::failed(
                    s,
                    SourceError { kind: ErrorKind::UnknownSymbol, span },
                ),
            },
            Content::Text(text) => Rendering::done(text_spec(s, text@)),
            Content::Sequence(children) => texify_all_spec(children@, s),
            Content::Math(node) => node.texify_spec(s),
            Content::Atom(node) => node.texify_spec(s),
            Content::Acc(node) => node.texify_spec(s),
            Content::Frac(node) => node.texify_spec(s),
            Content::Binom(node) => node.texify_spec(s),
            Content::Script(node) => node.texify_spec(s),
            Content::AlignPoint(node) => node.texify_spec(s),
            Content::Sqrt(node) => node.texify_spec(s),
            Content::Floor(node) => node.texify_spec(s),
            Content::Ceil(node) => node.texify_spec(s),
        }
    }

    /// The conversion of this node as an operand of a directive that groups
    /// its content: the node is converted by itself, one outer pair of
    /// auto-sizing parentheses is taken off, and the rest is written
    /// verbatim. If the node fails, nothing is written.
    pub open spec fn texify_unparen_spec(self, s: TexState) -> Rendering
        decreases self, 1int,
    {
        let sub = self.texify_spec(TexState::new(s.symbols));
        if sub.error is Some {
            Rendering { state: s, error: sub.error }
        } else {
            Rendering::done(s.push_str(unparened(sub.state.tex)))
        }
    }

    /// The markup of this node by itself, or the error that stops its
    /// conversion.
    pub open spec fn tex_spec(self, symbols: SymbolTableView) -> Result<Seq<char>, SourceError> {
        let whole = self.texify_spec(TexState::new(symbols));
        match whole.error {
            Some(error) => Err(error),
            None => Ok(whole.state.tex),
        }
    }
}

impl MathNode {
    /// The conversion of a formula: its pieces, one after the other.
    pub open spec fn texify_spec(self, s: TexState) -> Rendering
        decreases self, 0int,
    {
        texify_all_spec(self.children@, s)
    }

    /// The markup of this formula, or the error that stops its conversion.
    pub open spec fn tex_spec(self, symbols: SymbolTableView) -> Result<Seq<char>, SourceError> {
        let whole = self.texify_spec(TexState::new(symbols));
        match whole.error {
            Some(error) => Err(error),
            None => Ok(whole.state.tex),
        }
    }
}

impl AtomNode {
    /// The conversion of an atom. An atom of several grapheme clusters is
    /// written like upright text; any other atom character by character.
    pub open spec fn texify_spec(self, s: TexState) -> Rendering {
        Rendering::done(atom_spec(s, self.0@, grapheme_count(self.0@) > 1))
    }
}

impl AccNode {
    /// The conversion of an accented base: the accent's command around the
    /// base, or the base alone if the table has no accent command for the
    /// accent.
    pub open spec fn texify_spec(self, s: TexState) -> Rendering
        decreases self, 0int,
    {
        match s.symbols.accent_command(self.accent) {
            Some(name) => self.base.texify_spec(
                s.push_str("\\"@).push_str(name).push_str("{"@),
            ).push_str("}"@),
            None => self.base.texify_spec(s),
        }
    }
}

impl FracNode {
    /// The conversion of a fraction: numerator and denominator, each
    /// without its outer parentheses.
    pub open spec fn texify_spec(self, s: TexState) -> Rendering
        decreases self, 0int,
    {
        let num = self.num.texify_unparen_spec(s.push_str("\\frac{"@));
        if num.error is Some {
            num
        } else {
            self.denom.texify_unparen_spec(num.state.push_str("}{"@)).push_str("}"@)
        }
    }
}

impl BinomNode {
    /// The conversion of a binomial: upper and lower index as they are.
    pub open spec fn texify_spec(self, s: TexState) -> Rendering
        decreases self, 0int,
    {
        let upper = self.upper.texify_spec(s.push_str("\\binom{"@));
        if upper.error is Some {
            upper
        } else {
            self.lower.texify_spec(upper.state.push_str("}{"@)).push_str("}"@)
        }
    }
}

impl ScriptNode {
    /// The conversion of a base with its scripts: the base as it is, then
    /// the subscript and the superscript, each without its outer
    /// parentheses.
    pub open spec fn texify_spec(self, s: TexState) -> Rendering
        decreases self, 0int,
    {
        let base = self.base.texify_spec(s);
        let sub = if base.error is Some {
            base
        } else {
            match self.sub {
                Some(sub) => sub.texify_unparen_spec(base.state.push_str("_{"@)).push_str("}"@),
                None => base,
            }
        };
        if sub.error is Some {
            sub
        } else {
            match self.sup {
                Some(sup) => sup.texify_unparen_spec(sub.state.push_str("^{"@)).push_str("}"@),
                None => sub,
            }
        }
    }
}

impl AlignPointNode {
    /// An alignment point leaves no trace in the markup.
    pub open spec fn texify_spec(self, s: TexState) -> Rendering {
        Rendering::done(s)
    }
}

impl SqrtNode {
    /// The conversion of a square root.
    pub open spec fn texify_spec(self, s: TexState) -> Rendering
        decreases self, 0int,
    {
        self.0.texify_spec(s.push_str("\\sqrt{"@)).push_str("}"@)
    }
}

impl FloorNode {
    /// The conversion of a floored expression.
    pub open spec fn texify_spec(self, s: TexState) -> Rendering
        decreases self, 0int,
    {
        self.0.texify_spec(s.push_str("\\left\\lfloor "@)).push_str("\\right\\rfloor "@)
    }
}

impl CeilNode {
    /// The conversion of a ceiled expression.
    pub open spec fn texify_spec(self, s: TexState) -> Rendering
        decreases self, 0int,
    {
        self.0.texify_spec(s.push_str("\\left\\lceil "@)).push_str("\\right\\rceil "@)
    }
}

/// Writes `text` as upright text.
pub fn texify_text(text: &str, t: &mut Texifier)
    ensures
        final(t)@ == text_spec(old(t)@, text@),
{
    t.support();
    t.push_str("\\mathrm{");
    let ghost start = t@;
    assert(text@.skip(0) =~= text@);
    for c in it: text.chars()
        invariant
            it.seq() == text@,
            push_each_escaped(start, text@) == push_each_escaped(t@, text@.skip(it.index() as int)),
    {
        assert(text@.skip(it.index() as int)[0] == c);
        assert(text@.skip(it.index() as int).drop_first() =~= text@.skip(it.index() + 1));
        t.push_escaped(c);
    }
    assert(text@.skip(text@.len() as int).len() == 0);
    t.push_str("}");
    t.support();
    proof {
        lemma_text_spec(old(t)@, text@);
    }
}

/// Writes an atom: like upright text if it consists of several grapheme
/// clusters (`multi`), and character by character otherwise.
pub fn texify_atom(text: &str, multi: bool, t: &mut Texifier)
    ensures
        final(t)@ == atom_spec(old(t)@, text@, multi),
{
    if multi {
        texify_text(text, t);
    } else {
        let ghost start = t@;
        assert(text@.skip(0) =~= text@);
        for c in it: text.chars()
            invariant
                it.seq() == text@,
                push_each_atom_char(start, text@) == push_each_atom_char(
                    t@,
                    text@.skip(it.index() as int),
                ),
        {
            assert(text@.skip(it.index() as int)[0] == c);
            assert(text@.skip(it.index() as int).drop_first() =~= text@.skip(it.index() + 1));
            let supportive = c == '|';
            if supportive {
                t.support();
            }
            t.push_escaped(c);
            if supportive {
                t.support();
            }
        }
        assert(text@.skip(text@.len() as int).len() == 0);
        proof {
            lemma_atom_chars_spec(start, text@);
        }
    }
}

/// Converts a list of nodes, from left to right.
pub fn texify_all(children: &Vec<Content>, t: &mut Texifier) -> (r: Result<(), SourceError>)
    ensures
        final(t)@ == texify_all_spec(children@, old(t)@).state,
        r == texify_all_spec(children@, old(t)@).result(),
    decreases children, 0int,
{
    let ghost start = t@;
    assert(children@.skip(0) =~= children@);
    let mut i: usize = 0;
    while i < children.len()
        invariant
            i <= children.len(),
            start == old(t)@,
            texify_all_spec(children@, start) == texify_all_spec(children@.skip(i as int), t@),
        decreases children.len() - i,
    {
        assert(children@.skip(i as int)[0] == children@[i as int]);
        assert(children@.skip(i as int).drop_first() =~= children@.skip(i + 1));
        children[i].texify(t)?;
        i += 1;
    }
    assert(children@.skip(i as int).len() == 0);
    Ok(())
}

impl Content {
    /// Converts this node into markup, writing into `t`.
    ///
    /// Fails with `UnknownSymbol`, at the symbol's location, at the first
    /// symbol whose name the table does not know.
    pub fn texify(&self, t: &mut Texifier) -> (r: Result<(), SourceError>)
        ensures
            final(t)@ == self.texify_spec(old(t)@).state,
            r == self.texify_spec(old(t)@).result(),
        decreases self, 0int,
    {
        match self {
            Content::Space => {
                t.push_space();
                Ok(())
            },
            Content::Linebreak => {
                t.push_str("\\");
                Ok(())
            },
            Content::Symbol { name, span } => {
                match t.symbols().resolve(name.as_str()) {
                    Some(c) => {
                        t.push_escaped(c);
                        Ok(())
                    },
                    None => Err(SourceError { kind: ErrorKind::UnknownSymbol, span: *span }),
                }
            },
            Content::Text(text) => {
                texify_text(text.as_str(), t);
                Ok(())
            },
            Content::Sequence(children) => texify_all(children, t),
            Content::Math(node) => node.texify(t),
            Content::Atom(node) => node.texify(t),
            Content::Acc(node) => node.texify(t),
            Content::Frac(node) => node.texify(t),
            Content::Binom(node) => node.texify(t),
            Content::Script(node) => node.texify(t),
            Content::AlignPoint(node) => node.texify(t),
            Content::Sqrt(node) => node.texify(t),
            Content::Floor(node) => node.texify(t),
            Content::Ceil(node) => node.texify(t),
        }
    }

    /// Converts this node as an operand of a directive that groups its
    /// content: one outer pair of auto-sizing parentheses is left out.
    ///
    /// If the node fails, `t` stays as it was.
    pub fn texify_unparen(&self, t: &mut Texifier) -> (r: Result<(), SourceError>)
        ensures
            final(t)@ == self.texify_unparen_spec(old(t)@).state,
            r == self.texify_unparen_spec(old(t)@).result(),
        decreases self, 1int,
    {
        let mut sub = Texifier::new(t.symbols());
        self.texify(&mut sub)?;
        let unparened = unparen(sub.finish());
        t.push_str(unparened.as_str());
        Ok(())
    }

    /// Converts this node by itself and returns its markup.
    pub fn to_tex(&self, symbols: &SymbolTable) -> (r: Result<String, SourceError>)
        ensures
            match r {
                Ok(tex) => self.tex_spec(symbols@) == Ok::<Seq<char>, SourceError>(tex@),
                Err(error) => self.tex_spec(symbols@) == Err::<Seq<char>, SourceError>(error),
            },
    {
        let mut t = Texifier::new(symbols);
        self.texify(&mut t)?;
        Ok(t.finish())
    }
}

impl MathNode {
    /// Converts the formula into markup, writing into `t`.
    pub fn texify(&self, t: &mut Texifier) -> (r: Result<(), SourceError>)
        ensures
            final(t)@ == self.texify_spec(old(t)@).state,
            r == self.texify_spec(old(t)@).result(),
        decreases self, 0int,
    {
        texify_all(&self.children, t)
    }

    /// Converts the formula and returns its markup, ready to be laid out.
    pub fn to_tex(&self, symbols: &SymbolTable) -> (r: Result<String, SourceError>)
        ensures
            match r {
                Ok(tex) => self.tex_spec(symbols@) == Ok::<Seq<char>, SourceError>(tex@),
                Err(error) => self.tex_spec(symbols@) == Err::<Seq<char>, SourceError>(error),
            },
    {
        let mut t = Texifier::new(symbols);
        self.texify(&mut t)?;
        Ok(t.finish())
    }
}

impl AtomNode {
    /// Converts the atom into markup, writing into `t`.
    pub fn texify(&self, t: &mut Texifier) -> (r: Result<(), SourceError>)
        ensures
            final(t)@ == self.texify_spec(old(t)@).state,
            r == Ok::<(), SourceError>(()),
    {
        let text = self.0.as_str();
        let multi = count_graphemes(text) > 1;
        texify_atom(text, multi, t);
        Ok(())
    }
}

impl AccNode {
    /// Converts the accented base into markup, writing into `t`.
    pub fn texify(&self, t: &mut Texifier) -> (r: Result<(), SourceError>)
        ensures
            final(t)@ == self.texify_spec(old(t)@).state,
            r == self.texify_spec(old(t)@).result(),
        decreases self, 0int,
    {
        match t.symbols().accent_command(self.accent) {
            Some(name) => {
                t.push_str("\\");
                t.push_str(name.as_str());
                t.push_str("{");
                self.base.texify(t)?;
                t.push_str("}");
            },
            None => {
                self.base.texify(t)?;
            },
        }
        Ok(())
    }
}

impl FracNode {
    /// Converts the fraction into markup, writing into `t`.
    pub fn texify(&self, t: &mut Texifier) -> (r: Result<(), SourceError>)
        ensures
            final(t)@ == self.texify_spec(old(t)@).state,
            r == self.texify_spec(old(t)@).result(),
        decreases self, 0int,
    {
        t.push_str("\\frac{");
        self.num.texify_unparen(t)?;
        t.push_str("}{");
        self.denom.texify_unparen(t)?;
        t.push_str("}");
        Ok(())
    }
}

impl BinomNode {
    /// Converts the binomial into markup, writing into `t`.
    pub fn texify(&self, t: &mut Texifier) -> (r: Result<(), SourceError>)
        ensures
            final(t)@ == self.texify_spec(old(t)@).state,
            r == self.texify_spec(old(t)@).result(),
        decreases self, 0int,
    {
        t.push_str("\\binom{");
        self.upper.texify(t)?;
        t.push_str("}{");
        self.lower.texify(t)?;
        t.push_str("}");
        Ok(())
    }
}

impl ScriptNode {
    /// Converts the base and its scripts into markup, writing into `t`.
    pub fn texify(&self, t: &mut Texifier) -> (r: Result<(), SourceError>)
        ensures
            final(t)@ == self.texify_spec(old(t)@).state,
            r == self.texify_spec(old(t)@).result(),
        decreases self, 0int,
    {
        self.base.texify(t)?;

        if let Some(sub) = &self.sub {
            t.push_str("_{");
            sub.texify_unparen(t)?;
            t.push_str("}");
        }

        if let Some(sup) = &self.sup {
            t.push_str("^{");
            sup.texify_unparen(t)?;
            t.push_str("}");
        }

        Ok(())
    }
}

impl AlignPointNode {
    /// Writes nothing: an alignment point has no markup.
    pub fn texify(&self, t: &mut Texifier) -> (r: Result<(), SourceError>)
        ensures
            final(t)@ == self.texify_spec(old(t)@).state,
            r == Ok::<(), SourceError>(()),
    {
        Ok(())
    }
}

impl SqrtNode {
    /// Converts the square root into markup, writing into `t`.
    pub fn texify(&self, t: &mut Texifier) -> (r: Result<(), SourceError>)
        ensures
            final(t)@ == self.texify_spec(old(t)@).state,
            r == self.texify_spec(old(t)@).result(),
        decreases self, 0int,
    {
        t.push_str("\\sqrt{");
        self.0.texify(t)?;
        t.push_str("}");
        Ok(())
    }
}

impl FloorNode {
    /// Converts the floored expression into markup, writing into `t`.
    pub fn texify(&self, t: &mut Texifier) -> (r: Result<(), SourceError>)
        ensures
            final(t)@ == self.texify_spec(old(t)@).state,
            r == self.texify_spec(old(t)@).result(),
        decreases self, 0int,
    {
        t.push_str("\\left\\lfloor ");
        self.0.texify(t)?;
        t.push_str("\\right\\rfloor ");
        Ok(())
    }
}

impl CeilNode {
    /// Converts the ceiled expression into markup, writing into `t`.
    pub fn texify(&self, t: &mut Texifier) -> (r: Result<(), SourceError>)
        ensures
            final(t)@ == self.texify_spec(old(t)@).state,
            r == self.texify_spec(old(t)@).result(),
        decreases self, 0int,
    {
        t.push_str("\\left\\lceil ");
        self.0.texify(t)?;
        t.push_str("\\right\\rceil ");
        Ok(())
    }
}

} // verus!
