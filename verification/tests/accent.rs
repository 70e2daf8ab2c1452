use texify::accent::{extract, normalize_accent};
use texify::symbols::{NamedSymbol, SymbolEntry, SymbolTable};
use texify::{AccNode, AtomNode, Content, ErrorKind, MathNode, SourceError, Span};

fn table() -> SymbolTable {
    SymbolTable::new(
        vec![
            SymbolEntry { codepoint: '\u{303}', name: "tilde".to_string(), accent: true },
            SymbolEntry { codepoint: '\u{307}', name: "dot".to_string(), accent: true },
            SymbolEntry { codepoint: '\u{20d7}', name: "vec".to_string(), accent: true },
        ],
        vec![
            NamedSymbol { name: "tilde".to_string(), codepoint: '\u{223c}' },
            NamedSymbol { name: "arrow".to_string(), codepoint: '\u{2192}' },
            NamedSymbol { name: "infinity".to_string(), codepoint: '\u{221e}' },
        ],
    )
}

fn atom(s: &str) -> Content {
    AtomNode::construct(s.to_string())
}

fn symbol(name: &str) -> Content {
    Content::Symbol { name: name.to_string(), span: Span(99) }
}

fn formula(children: Vec<Content>) -> Content {
    MathNode::construct(None, children)
}

fn acc(operand: &Content) -> Result<Content, SourceError> {
    AccNode::construct(atom("a"), operand, Span(5), &table())
}

fn not_an_accent() -> SourceError {
    SourceError { kind: ErrorKind::NotAnAccent, span: Span(5) }
}

#[test]
fn aliases_and_canonical_codepoints() {
    let rows: [(&str, char); 11] = [
        ("`\u{300}", '\u{300}'),
        ("\u{b4}\u{301}", '\u{301}'),
        ("^\u{302}", '\u{302}'),
        ("~\u{223c}\u{303}", '\u{303}'),
        ("\u{af}\u{304}", '\u{304}'),
        ("\u{203e}\u{305}", '\u{305}'),
        ("\u{2d8}\u{306}", '\u{306}'),
        (".\u{22c5}\u{307}", '\u{307}'),
        ("\u{a8}\u{308}", '\u{308}'),
        ("\u{2c7}\u{30c}", '\u{30c}'),
        ("\u{2192}\u{20d7}", '\u{20d7}'),
    ];
    for (spellings, canonical) in rows {
        for c in spellings.chars() {
            assert_eq!(normalize_accent(c), Some(canonical));
        }
        assert_eq!(normalize_accent(canonical), Some(canonical));
    }
}

#[test]
fn other_characters_are_no_accents() {
    for c in ['a', 'x', ' ', '\'', '-', '_', '\u{309}', '\u{30b}', '\u{2190}', '\u{221e}'] {
        assert_eq!(normalize_accent(c), None);
    }
}

#[test]
fn accent_from_alias_equals_accent_from_canonical() {
    let symbols = table();
    let from_alias = acc(&atom("~")).unwrap();
    let from_canonical = acc(&atom("\u{303}")).unwrap();
    assert_eq!(from_alias, from_canonical);
    assert_eq!(
        from_alias,
        Content::Acc(Box::new(AccNode { base: atom("a"), accent: '\u{303}' }))
    );
    assert_eq!(from_alias.to_tex(&symbols), Ok("\\tilde{a}".to_string()));
    assert_eq!(from_alias.to_tex(&symbols), from_canonical.to_tex(&symbols));
}

#[test]
fn accent_operand_inside_a_formula() {
    assert_eq!(acc(&formula(vec![atom("~")])), acc(&atom("~")));
    assert_eq!(
        acc(&formula(vec![atom(".")])),
        Ok(Content::Acc(Box::new(AccNode { base: atom("a"), accent: '\u{307}' })))
    );
}

#[test]
fn accent_operand_by_symbol_name() {
    let symbols = table();
    let by_name = acc(&formula(vec![symbol("arrow")])).unwrap();
    assert_eq!(
        by_name,
        Content::Acc(Box::new(AccNode { base: atom("a"), accent: '\u{20d7}' }))
    );
    assert_eq!(by_name.to_tex(&symbols), Ok("\\vec{a}".to_string()));
    assert_eq!(acc(&symbol("tilde")), acc(&atom("~")));
}

#[test]
fn accent_operand_of_two_characters_fails() {
    assert_eq!(acc(&atom("ab")), Err(not_an_accent()));
    assert_eq!(acc(&formula(vec![atom("~~")])), Err(not_an_accent()));
    assert_eq!(acc(&atom("~\u{303}")), Err(not_an_accent()));
}

#[test]
fn accent_operand_that_is_empty_fails() {
    assert_eq!(acc(&formula(vec![])), Err(not_an_accent()));
    assert_eq!(acc(&atom("")), Err(not_an_accent()));
}

#[test]
fn accent_operand_of_several_pieces_fails() {
    assert_eq!(acc(&formula(vec![atom("~"), atom("~")])), Err(not_an_accent()));
    assert_eq!(acc(&formula(vec![atom("~"), Content::Space])), Err(not_an_accent()));
}

#[test]
fn accent_operand_of_another_shape_fails() {
    assert_eq!(acc(&Content::Text("~".to_string())), Err(not_an_accent()));
    assert_eq!(acc(&Content::Space), Err(not_an_accent()));
    assert_eq!(acc(&Content::Sequence(vec![atom("~")])), Err(not_an_accent()));
    assert_eq!(acc(&formula(vec![formula(vec![atom("~")])])), Err(not_an_accent()));
}

#[test]
fn accent_operand_that_is_no_accent_fails() {
    assert_eq!(acc(&atom("x")), Err(not_an_accent()));
    assert_eq!(acc(&symbol("infinity")), Err(not_an_accent()));
}

#[test]
fn accent_operand_with_unknown_symbol_fails() {
    assert_eq!(
        acc(&formula(vec![symbol("nope")])),
        Err(SourceError { kind: ErrorKind::UnknownSymbol, span: Span(5) })
    );
}

#[test]
fn extract_reduces_the_operand() {
    let symbols = table();
    assert_eq!(extract(&atom("^"), &symbols), Ok('\u{302}'));
    assert_eq!(extract(&formula(vec![atom("`")]), &symbols), Ok('\u{300}'));
    assert_eq!(extract(&symbol("tilde"), &symbols), Ok('\u{303}'));
    assert_eq!(extract(&symbol("nope"), &symbols), Err(ErrorKind::UnknownSymbol));
    assert_eq!(extract(&atom("xy"), &symbols), Err(ErrorKind::NotAnAccent));
}
