//! The symbol names that a formula refers to.
//!
//! A conversion succeeds exactly if the symbol table resolves every name in
//! the formula, so whoever fills the table can ask here which names it must
//! hold.

use vstd::prelude::*;
use crate::content::Content;

verus! {

/// The character sequences of a list of names.
pub open spec fn views(names: Seq<String>) -> Seq<Seq<char>> {
    names.map_values(|name: String| name@)
}

/// The symbol names in a list of nodes, in the order in which a conversion
/// meets them.
pub open spec fn all_symbol_names(children: Seq<Content>) -> Seq<Seq<char>>
    decreases children, 0int,
{
    if children.len() == 0 {
        Seq::empty()
    } else {
        children[0].symbol_names_spec() + all_symbol_names(children.drop_first())
    }
}

/// The symbol names in an optional node.
pub open spec fn optional_symbol_names(content: Option<Content>) -> Seq<Seq<char>>
    decreases content, 0int,
{
    match content {
        Some(content) => content.symbol_names_spec(),
        None => Seq::empty(),
    }
}

impl Content {
    /// The symbol names in this node, in the order in which a conversion
    /// meets them. A name stands in the list once for each symbol that
    /// carries it.
    pub open spec fn symbol_names_spec(self) -> Seq<Seq<char>>
        decreases self, 0int,
    {
        match self {
            Content::Symbol { name, span } => seq![name@],
            Content::Math(node) => all_symbol_names(node.children@),
            Content::Sequence(children) => all_symbol_names(children@),
            Content::Acc(node) => node.base.symbol_names_spec(),
            Content::Frac(node) => node.num.symbol_names_spec() + node.denom.symbol_names_spec(),
            Content::Binom(node) => node.upper.symbol_names_spec()
                + node.lower.symbol_names_spec(),
            Content::Script(node) => node.base.symbol_names_spec() + optional_symbol_names(
                node.sub,
            ) + optional_symbol_names(node.sup),
            Content::Sqrt(node) => node.0.symbol_names_spec(),
            Content::Floor(node) => node.0.symbol_names_spec(),
            Content::Ceil(node) => node.0.symbol_names_spec(),
            _ => Seq::empty(),
        }
    }

    /// Appends the symbol names in this node to `names`, in the order in
    /// which a conversion meets them.
    pub fn symbol_names(&self, names: &mut Vec<String>)
        ensures
            views(final(names)@) == views(old(names)@) + self.symbol_names_spec(),
        decreases self, 0int,
    {
        let ghost start = views(names@);
        match self {
            Content::Symbol { name, span: _ } => {
                names.push(name.clone());
                assert(views(names@) =~= start + seq![name@]);
            },
            Content::Math(node) => collect_symbol_names(&node.children, names),
            Content::Sequence(children) => collect_symbol_names(children, names),
            Content::Acc(node) => node.base.symbol_names(names),
            Content::Frac(node) => {
                node.num.symbol_names(names);
                node.denom.symbol_names(names);
                assert(views(names@) =~= start + self.symbol_names_spec());
            },
            Content::Binom(node) => {
                node.upper.symbol_names(names);
                node.lower.symbol_names(names);
                assert(views(names@) =~= start + self.symbol_names_spec());
            },
            Content::Script(node) => {
                node.base.symbol_names(names);
                if let Some(sub) = &node.sub {
                    sub.symbol_names(names);
                }
                let ghost with_sub = views(names@);
                assert(with_sub =~= start + (node.base.symbol_names_spec()
                    + optional_symbol_names(node.sub)));
                if let Some(sup) = &node.sup {
                    sup.symbol_names(names);
                }
                assert(views(names@) =~= with_sub + optional_symbol_names(node.sup));
                assert(views(names@) =~= start + self.symbol_names_spec());
            },
            Content::Sqrt(node) => node.0.symbol_names(names),
            Content::Floor(node) => node.0.symbol_names(names),
            Content::Ceil(node) => node.0.symbol_names(names),
            _ => {
                assert(views(names@) =~= start + self.symbol_names_spec());
            },
        }
    }
}

/// Appends the symbol names in a list of nodes to `names`, in the order in
/// which a conversion meets them.
pub fn collect_symbol_names(children: &Vec<Content>, names: &mut Vec<String>)
    ensures
        views(final(names)@) == views(old(names)@) + all_symbol_names(children@),
    decreases children, 0int,
{
    let ghost start = views(names@);
    assert(children@.skip(0) =~= children@);
    assert(start + Seq::<Seq<char>>::empty() =~= start);
    let ghost mut seen = Seq::<Seq<char>>::empty();
    let mut i: usize = 0;
    while i < children.len()
        invariant
            i <= children.len(),
            start == views(old(names)@),
            views(names@) == start + seen,
            all_symbol_names(children@) == seen + all_symbol_names(children@.skip(i as int)),
        decreases children.len() - i,
    {
        assert(children@.skip(i as int)[0] == children@[i as int]);
        assert(children@.skip(i as int).drop_first() =~= children@.skip(i + 1));
        children[i].symbol_names(names);
        proof {
            let found = children@[i as int].symbol_names_spec();
            assert(views(names@) =~= start + (seen + found));
            assert(seen + all_symbol_names(children@.skip(i as int)) =~= (seen + found)
                + all_symbol_names(children@.skip(i + 1)));
            seen = seen + found;
        }
        i += 1;
    }
    assert(children@.skip(i as int).len() == 0);
    assert(seen + Seq::<Seq<char>>::empty() =~= seen);
}

} // verus!
