//! What holds of the markup of every formula.

use vstd::prelude::*;
use crate::content::{AccNode, AtomNode, BinomNode, Content, FracNode, ScriptNode};
use crate::error::{ErrorKind, SourceError};
use crate::graphemes::grapheme_count;
use crate::names::{all_symbol_names, optional_symbol_names};
use crate::symbols::SymbolTableView;
use crate::texifier::{escaped, escaped_text, is_plain, TexState};
use crate::markup::{atom_chars_spec, is_supportive, text_spec, texify_all_spec, Rendering};
use crate::unparen::{
    balanced, lemma_unparen_nested, lemma_unparen_wrapped, unparened, wrapped,
};

verus! {

/// An atom of several grapheme clusters is written exactly like upright
/// text with the same characters.
pub proof fn lemma_multi_grapheme_atom_is_text(text: String, s: TexState)
    ensures
        grapheme_count(text@) > 1 ==> Content::Atom(AtomNode(text)).texify_spec(s)
            == Content::Text(text).texify_spec(s),
{
}

/// An atom of one character that is one grapheme cluster is written as the
/// markup of that character; a plain character stands for itself.
pub proof fn lemma_single_char_atom(text: String, c: char, symbols: SymbolTableView)
    requires
        text@ == seq![c],
    ensures
        grapheme_count(text@) <= 1 ==> Content::Atom(AtomNode(text)).tex_spec(symbols) == Ok::<
            Seq<char>,
            SourceError,
        >(escaped(symbols, c)),
        is_plain(c) ==> escaped(symbols, c) == seq![c],
{
    lemma_escaped_single(symbols, text@, c);
    assert(TexState::new(symbols).tex + escaped(symbols, c) =~= escaped(symbols, c));
}

/// The markup of a text of one character is the markup of that character.
proof fn lemma_escaped_single(symbols: SymbolTableView, text: Seq<char>, c: char)
    requires
        text == seq![c],
    ensures
        escaped_text(symbols, text) == escaped(symbols, c),
{
    assert(text.drop_first() =~= Seq::<char>::empty());
    assert(escaped_text(symbols, text.drop_first()) =~= Seq::<char>::empty());
    assert(escaped_text(symbols, text) =~= escaped(symbols, c));
}

/// A fraction is the fraction directive around its two operands, each
/// without its outer pair of parentheses. It fails where the numerator
/// fails, or else where the denominator fails.
pub proof fn lemma_fraction_markup(node: FracNode, symbols: SymbolTableView)
    ensures
        Content::Frac(Box::new(node)).tex_spec(symbols) == match (
            node.num.tex_spec(symbols),
            node.denom.tex_spec(symbols),
        ) {
            (Ok(num), Ok(denom)) => Ok::<Seq<char>, SourceError>(
                "\\frac{"@ + unparened(num) + "}{"@ + unparened(denom) + "}"@,
            ),
            (Err(error), _) => Err::<Seq<char>, SourceError>(error),
            (Ok(_), Err(error)) => Err::<Seq<char>, SourceError>(error),
        },
{
    let fresh = TexState::new(symbols);
    let whole = Content::Frac(Box::new(node)).texify_spec(fresh);
    assert(whole == node.texify_spec(fresh));
    let num = node.num.texify_spec(fresh);
    let denom = node.denom.texify_spec(fresh);
    if num.error is None && denom.error is None {
        assert(whole.state.tex =~= "\\frac{"@ + unparened(num.state.tex) + "}{"@ + unparened(
            denom.state.tex,
        ) + "}"@);
    }
}

/// The outermost grouping of an operand is implied: a numerator that is
/// one pair of auto-sizing parentheses around a balanced markup stands in
/// the fraction without that pair, and of two nested pairs the inner one
/// stays.
pub proof fn lemma_fraction_elides_one_layer(
    node: FracNode,
    symbols: SymbolTableView,
    body: Seq<char>,
    denom: Seq<char>,
)
    requires
        balanced(body),
        node.denom.tex_spec(symbols) == Ok::<Seq<char>, SourceError>(denom),
    ensures
        node.num.tex_spec(symbols) == Ok::<Seq<char>, SourceError>(wrapped(body))
            ==> Content::Frac(Box::new(node)).tex_spec(symbols) == Ok::<Seq<char>, SourceError>(
            "\\frac{"@ + body + "}{"@ + unparened(denom) + "}"@,
        ),
        node.num.tex_spec(symbols) == Ok::<Seq<char>, SourceError>(wrapped(wrapped(body)))
            ==> Content::Frac(Box::new(node)).tex_spec(symbols) == Ok::<Seq<char>, SourceError>(
            "\\frac{"@ + wrapped(body) + "}{"@ + unparened(denom) + "}"@,
        ),
{
    lemma_fraction_markup(node, symbols);
    lemma_unparen_wrapped(body);
    lemma_unparen_nested(body);
}

/// The rule of weak spaces: a weak space that follows a write shows at the
/// next write exactly if the position before it and the position after it
/// were both marked as support.
pub proof fn lemma_weak_space_rule(s: TexState, before: bool, after: bool, next: Seq<char>)
    requires
        s.tex.len() > 0,
        !s.space,
        !s.support,
    ensures
        ({
            let marked = if before {
                s.support()
            } else {
                s
            };
            let spaced = marked.push_space();
            let ready = if after {
                spaced.support()
            } else {
                spaced
            };
            ready.push_str(next).tex == s.tex + (if before && after {
                "\\ "@
            } else {
                Seq::<char>::empty()
            }) + next
        }),
{
    assert(s.tex + Seq::<char>::empty() =~= s.tex);
}

/// Weak spaces in a row count as one: a second weak space changes nothing.
pub proof fn lemma_weak_spaces_collapse(s: TexState)
    ensures
        s.push_space().push_space() == s.push_space(),
{
}

/// A weak space between two upright texts shows as an explicit space: the
/// positions on both of its sides are marked as support.
pub proof fn lemma_space_between_texts_shows(
    nodes: Vec<Content>,
    a: String,
    b: String,
    symbols: SymbolTableView,
)
    requires
        nodes@ == seq![Content::Text(a), Content::Space, Content::Text(b)],
    ensures
        Content::Sequence(nodes).tex_spec(symbols) == Ok::<Seq<char>, SourceError>(
            "\\mathrm{"@ + escaped_text(symbols, a@) + "}"@ + "\\ "@ + "\\mathrm{"@
                + escaped_text(symbols, b@) + "}"@,
        ),
{
    let fresh = TexState::new(symbols);
    let all = nodes@;
    let first = text_spec(fresh, a@);
    reveal_strlit("}");
    assert(first.tex.len() > 0);
    let last = text_spec(first.push_space(), b@);
    assert(all.drop_first() =~= seq![Content::Space, Content::Text(b)]);
    assert(all.drop_first().drop_first() =~= seq![Content::Text(b)]);
    assert(all.drop_first().drop_first().drop_first() =~= Seq::<Content>::empty());
    reveal_with_fuel(texify_all_spec, 4);
    assert(texify_all_spec(all, fresh) == Rendering::done(last));
    assert(last.tex =~= "\\mathrm{"@ + escaped_text(symbols, a@) + "}"@ + "\\ "@ + "\\mathrm{"@
        + escaped_text(symbols, b@) + "}"@);
}

/// A weak space between two atoms of one character each, both of them one
/// grapheme cluster, leaves no trace, unless both characters ask for
/// support.
pub proof fn lemma_space_between_atoms(
    nodes: Vec<Content>,
    a: String,
    b: String,
    x: char,
    y: char,
    symbols: SymbolTableView,
)
    requires
        nodes@ == seq![Content::Atom(AtomNode(a)), Content::Space, Content::Atom(AtomNode(b))],
        a@ == seq![x],
        b@ == seq![y],
    ensures
        grapheme_count(a@) <= 1 && grapheme_count(b@) <= 1 ==> Content::Sequence(nodes).tex_spec(
            symbols,
        ) == Ok::<Seq<char>, SourceError>(
            escaped(symbols, x) + (if is_supportive(x) && is_supportive(y) {
                "\\ "@
            } else {
                Seq::<char>::empty()
            }) + escaped(symbols, y),
        ),
{
    if grapheme_count(a@) <= 1 && grapheme_count(b@) <= 1 {
        let fresh = TexState::new(symbols);
        let all = nodes@;
        lemma_escaped_single(symbols, a@, x);
        lemma_escaped_single(symbols, b@, y);
        let first = atom_chars_spec(fresh, a@);
        assert(first.tex =~= escaped(symbols, x));
        let last = atom_chars_spec(first.push_space(), b@);
        assert(all.drop_first() =~= seq![Content::Space, Content::Atom(AtomNode(b))]);
        assert(all.drop_first().drop_first() =~= seq![Content::Atom(AtomNode(b))]);
        assert(all.drop_first().drop_first().drop_first() =~= Seq::<Content>::empty());
        reveal_with_fuel(texify_all_spec, 4);
        assert(texify_all_spec(all, fresh) == Rendering::done(last));
        if is_supportive(x) {
            assert(escaped(symbols, x) =~= seq!['|']);
        }
        assert(last.tex =~= escaped(symbols, x) + (if is_supportive(x) && is_supportive(y) {
            "\\ "@
        } else {
            Seq::<char>::empty()
        }) + escaped(symbols, y));
    }
}

/// Whether the table resolves every name of a list.
pub open spec fn resolves_all(symbols: SymbolTableView, names: Seq<Seq<char>>) -> bool {
    forall|i: int| 0 <= i < names.len() ==> (#[trigger] symbols.resolve(names[i])) is Some
}

/// The table resolves two lists of names exactly if it resolves the two in
/// a row.
proof fn lemma_resolves_all_concat(
    symbols: SymbolTableView,
    a: Seq<Seq<char>>,
    b: Seq<Seq<char>>,
)
    ensures
        resolves_all(symbols, a + b) <==> resolves_all(symbols, a) && resolves_all(symbols, b),
{
    let both = a + b;
    if resolves_all(symbols, both) {
        assert forall|i: int| 0 <= i < a.len() implies (#[trigger] symbols.resolve(
            a[i],
        )) is Some by {
            assert(both[i] == a[i]);
        }
        assert forall|i: int| 0 <= i < b.len() implies (#[trigger] symbols.resolve(
            b[i],
        )) is Some by {
            assert(both[a.len() + i] == b[i]);
        }
    }
    if resolves_all(symbols, a) && resolves_all(symbols, b) {
        assert forall|i: int| 0 <= i < both.len() implies (#[trigger] symbols.resolve(
            both[i],
        )) is Some by {
            if i < a.len() {
                assert(both[i] == a[i]);
            } else {
                assert(both[i] == b[i - a.len()]);
            }
        }
    }
}

/// How a conversion that starts in `s` ends: it leaves the symbol table
/// alone, stops with no other error than an unknown symbol, and goes
/// through exactly if the table resolves every symbol name in the node.
pub open spec fn ends_well(end: Rendering, s: TexState, names: Seq<Seq<char>>) -> bool {
    &&& end.state.symbols == s.symbols
    &&& end.error matches Some(error) ==> error.kind == ErrorKind::UnknownSymbol
    &&& end.error is None <==> resolves_all(s.symbols, names)
}

/// A conversion goes through exactly if the symbol table resolves every
/// symbol name in the node. The only error with which it stops is an
/// unknown symbol: no node of a formula is without markup. The symbol
/// table of the builder stays the same.
pub proof fn lemma_conversion_ends_well(content: Content, s: TexState)
    ensures
        ends_well(content.texify_spec(s), s, content.symbol_names_spec()),
    decreases content, 0int,
{
    match content {
        Content::Symbol { name, span } => {
            assert(content.symbol_names_spec()[0] == name@);
        },
        Content::Sequence(children) => lemma_conversion_ends_well_all(children@, s),
        Content::Math(node) => lemma_conversion_ends_well_all(node.children@, s),
        Content::Acc(node) => lemma_accent_ends_well(*node, s),
        Content::Frac(node) => lemma_fraction_ends_well(*node, s),
        Content::Binom(node) => lemma_binomial_ends_well(*node, s),
        Content::Script(node) => lemma_script_ends_well(*node, s),
        Content::Sqrt(node) => lemma_conversion_ends_well(node.0, s.push_str("\\sqrt{"@)),
        Content::Floor(node) => lemma_conversion_ends_well(
            node.0,
            s.push_str("\\left\\lfloor "@),
        ),
        Content::Ceil(node) => lemma_conversion_ends_well(
            node.0,
            s.push_str("\\left\\lceil "@),
        ),
        _ => {},
    }
}

/// The law above for an operand that loses its outer parentheses.
pub proof fn lemma_conversion_ends_well_unparen(content: Content, s: TexState)
    ensures
        ends_well(content.texify_unparen_spec(s), s, content.symbol_names_spec()),
    decreases content, 1int,
{
    lemma_conversion_ends_well(content, TexState::new(s.symbols));
}

/// The law above for a list of nodes.
pub proof fn lemma_conversion_ends_well_all(children: Seq<Content>, s: TexState)
    ensures
        ends_well(texify_all_spec(children, s), s, all_symbol_names(children)),
    decreases children, 0int,
{
    if children.len() > 0 {
        let first = children[0].texify_spec(s);
        lemma_conversion_ends_well(children[0], s);
        lemma_conversion_ends_well_all(children.drop_first(), first.state);
        lemma_resolves_all_concat(
            s.symbols,
            children[0].symbol_names_spec(),
            all_symbol_names(children.drop_first()),
        );
    }
}

/// The law above for an optional operand that loses its outer parentheses
/// and stands between `open` and a closing brace.
proof fn lemma_script_part_ends_well(part: Option<Content>, open: Seq<char>, before: Rendering)
    requires
        before.error is None,
    ensures
        ends_well(
            match part {
                Some(content) => content.texify_unparen_spec(before.state.push_str(open)).push_str(
                    "}"@,
                ),
                None => before,
            },
            before.state,
            optional_symbol_names(part),
        ),
    decreases part, 2int,
{
    match part {
        Some(content) => lemma_conversion_ends_well_unparen(content, before.state.push_str(open)),
        None => {},
    }
}

proof fn lemma_accent_ends_well(node: AccNode, s: TexState)
    ensures
        ends_well(node.texify_spec(s), s, node.base.symbol_names_spec()),
    decreases node, 0int,
{
    match s.symbols.accent_command(node.accent) {
        Some(name) => lemma_conversion_ends_well(
            node.base,
            s.push_str("\\"@).push_str(name).push_str("{"@),
        ),
        None => lemma_conversion_ends_well(node.base, s),
    }
}

proof fn lemma_fraction_ends_well(node: FracNode, s: TexState)
    ensures
        ends_well(
            node.texify_spec(s),
            s,
            node.num.symbol_names_spec() + node.denom.symbol_names_spec(),
        ),
    decreases node, 0int,
{
    let opened = s.push_str("\\frac{"@);
    lemma_conversion_ends_well_unparen(node.num, opened);
    lemma_conversion_ends_well_unparen(
        node.denom,
        node.num.texify_unparen_spec(opened).state.push_str("}{"@),
    );
    lemma_resolves_all_concat(
        s.symbols,
        node.num.symbol_names_spec(),
        node.denom.symbol_names_spec(),
    );
}

proof fn lemma_binomial_ends_well(node: BinomNode, s: TexState)
    ensures
        ends_well(
            node.texify_spec(s),
            s,
            node.upper.symbol_names_spec() + node.lower.symbol_names_spec(),
        ),
    decreases node, 0int,
{
    let opened = s.push_str("\\binom{"@);
    lemma_conversion_ends_well(node.upper, opened);
    lemma_conversion_ends_well(node.lower, node.upper.texify_spec(opened).state.push_str("}{"@));
    lemma_resolves_all_concat(
        s.symbols,
        node.upper.symbol_names_spec(),
        node.lower.symbol_names_spec(),
    );
}

proof fn lemma_script_ends_well(node: ScriptNode, s: TexState)
    ensures
        ends_well(
            node.texify_spec(s),
            s,
            node.base.symbol_names_spec() + optional_symbol_names(node.sub)
                + optional_symbol_names(node.sup),
        ),
    decreases node, 0int,
{
    let base = node.base.texify_spec(s);
    lemma_conversion_ends_well(node.base, s);
    let base_names = node.base.symbol_names_spec();
    let sub_names = optional_symbol_names(node.sub);
    let sup_names = optional_symbol_names(node.sup);
    lemma_resolves_all_concat(s.symbols, base_names, sub_names);
    lemma_resolves_all_concat(s.symbols, base_names + sub_names, sup_names);
    if base.error is None {
        lemma_script_part_ends_well(node.sub, "_{"@, base);
        let sub = match node.sub {
            Some(sub) => sub.texify_unparen_spec(base.state.push_str("_{"@)).push_str("}"@),
            None => base,
        };
        if sub.error is None {
            lemma_script_part_ends_well(node.sup, "^{"@, sub);
        }
    }
}

} // verus!
