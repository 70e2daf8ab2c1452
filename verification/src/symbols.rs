//! The symbol table: command names for codepoints and codepoints for
//! symbol names.

use vstd::prelude::*;
use crate::text::str_eq;

verus! {

/// One codepoint with the markup command that stands for it.
#[derive(Debug)]
pub struct SymbolEntry {
    /// The Unicode codepoint.
    pub codepoint: char,
    /// The name of the command, without the leading backslash.
    pub name: String,
    /// Whether the command belongs to the accent class.
    pub accent: bool,
}

/// The mathematical value of a [`SymbolEntry`].
pub ghost struct SymbolEntryView {
    pub codepoint: char,
    pub name: Seq<char>,
    pub accent: bool,
}

impl View for SymbolEntry {
    type V = SymbolEntryView;

    open spec fn view(&self) -> SymbolEntryView {
        SymbolEntryView { codepoint: self.codepoint, name: self.name@, accent: self.accent }
    }
}

/// One symbol name with the codepoint it resolves to.
#[derive(Debug)]
pub struct NamedSymbol {
    /// The identifier by which formulas refer to the symbol.
    pub name: String,
    /// The codepoint it stands for.
    pub codepoint: char,
}

/// The mathematical value of a [`NamedSymbol`].
pub ghost struct NamedSymbolView {
    pub name: Seq<char>,
    pub codepoint: char,
}

impl View for NamedSymbol {
    type V = NamedSymbolView;

    open spec fn view(&self) -> NamedSymbolView {
        NamedSymbolView { name: self.name@, codepoint: self.codepoint }
    }
}

/// An immutable table of symbols.
///
/// Lookups go through the rows in order and stop at the first match, so an
/// earlier row shadows a later one for the same key.
#[derive(Debug)]
pub struct SymbolTable {
    /// Codepoints with their commands.
    pub entries: Vec<SymbolEntry>,
    /// Symbol names with their codepoints.
    pub names: Vec<NamedSymbol>,
}

/// The mathematical value of a [`SymbolTable`].
pub ghost struct SymbolTableView {
    pub entries: Seq<SymbolEntryView>,
    pub names: Seq<NamedSymbolView>,
}

impl View for SymbolTable {
    type V = SymbolTableView;

    open spec fn view(&self) -> SymbolTableView {
        SymbolTableView {
            entries: Seq::new(self.entries@.len(), |i: int| self.entries@[i]@),
            names: Seq::new(self.names@.len(), |i: int| self.names@[i]@),
        }
    }
}

/// Whether a row answers a lookup for `c`, among all rows or among the
/// accent class only.
pub open spec fn entry_matches(entry: SymbolEntryView, c: char, accent_only: bool) -> bool {
    entry.codepoint == c && (accent_only ==> entry.accent)
}

/// The command name of the first row that answers a lookup for `c`.
pub open spec fn first_command(entries: Seq<SymbolEntryView>, c: char, accent_only: bool) -> Option<
    Seq<char>,
>
    decreases entries.len(),
{
    if entries.len() == 0 {
        None
    } else if entry_matches(entries[0], c, accent_only) {
        Some(entries[0].name)
    } else {
        first_command(entries.drop_first(), c, accent_only)
    }
}

/// The codepoint of the first row that carries the given name.
pub open spec fn first_named(names: Seq<NamedSymbolView>, name: Seq<char>) -> Option<char>
    decreases names.len(),
{
    if names.len() == 0 {
        None
    } else if names[0].name == name {
        Some(names[0].codepoint)
    } else {
        first_named(names.drop_first(), name)
    }
}

impl SymbolTableView {
    /// The command that stands for `c`, if the table has one.
    pub open spec fn command(self, c: char) -> Option<Seq<char>> {
        first_command(self.entries, c, false)
    }

    /// The accent-class command that stands for `c`, if the table has one.
    pub open spec fn accent_command(self, c: char) -> Option<Seq<char>> {
        first_command(self.entries, c, true)
    }

    /// The codepoint that the symbol name resolves to, if the table knows it.
    pub open spec fn resolve(self, name: Seq<char>) -> Option<char> {
        first_named(self.names, name)
    }
}

impl SymbolTable {
    /// Creates a table from its rows.
    pub fn new(entries: Vec<SymbolEntry>, names: Vec<NamedSymbol>) -> (table: SymbolTable)
        ensures
            table.entries == entries,
            table.names == names,
    {
        SymbolTable { entries, names }
    }

    /// Finds the first row for `c`, among all rows or the accent class only.
    fn find(&self, c: char, accent_only: bool) -> (found: Option<&String>)
        ensures
            match found {
                Some(name) => first_command(self@.entries, c, accent_only) == Some(name@),
                None => first_command(self@.entries, c, accent_only) is None,
            },
    {
        let ghost all = self@.entries;
        let mut i: usize = 0;
        assert(all.skip(0) =~= all);
        while i < self.entries.len()
            invariant
                i <= self.entries.len(),
                all == self@.entries,
                first_command(all, c, accent_only) == first_command(
                    all.skip(i as int),
                    c,
                    accent_only,
                ),
            decreases self.entries.len() - i,
        {
            let entry = &self.entries[i];
            assert(all.skip(i as int)[0] == entry@);
            assert(all.skip(i as int).drop_first() =~= all.skip(i + 1));
            if entry.codepoint == c && (!accent_only || entry.accent) {
                return Some(&entry.name);
            }
            i += 1;
        }
        assert(all.skip(i as int).len() == 0);
        None
    }

    /// Looks up the command that stands for the codepoint `c`.
    pub fn command(&self, c: char) -> (found: Option<&String>)
        ensures
            match found {
                Some(name) => self@.command(c) == Some(name@),
                None => self@.command(c) is None,
            },
    {
        self.find(c, false)
    }

    /// Looks up the accent-class command that stands for the codepoint `c`.
    pub fn accent_command(&self, c: char) -> (found: Option<&String>)
        ensures
            match found {
                Some(name) => self@.accent_command(c) == Some(name@),
                None => self@.accent_command(c) is None,
            },
    {
        self.find(c, true)
    }

    /// Resolves a symbol name to its codepoint.
    pub fn resolve(&self, name: &str) -> (found: Option<char>)
        ensures
            found == self@.resolve(name@),
    {
        let ghost all = self@.names;
        let mut i: usize = 0;
        assert(all.skip(0) =~= all);
        while i < self.names.len()
            invariant
                i <= self.names.len(),
                all == self@.names,
                first_named(all, name@) == first_named(all.skip(i as int), name@),
            decreases self.names.len() - i,
        {
            let row = &self.names[i];
            assert(all.skip(i as int)[0] == row@);
            assert(all.skip(i as int).drop_first() =~= all.skip(i + 1));
            if str_eq(row.name.as_str(), name) {
                return Some(row.codepoint);
            }
            i += 1;
        }
        assert(all.skip(i as int).len() == 0);
        None
    }
}

} // verus!
