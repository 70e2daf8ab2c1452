use texify::names::collect_symbol_names;
use texify::symbols::{NamedSymbol, SymbolTable};
use texify::{
    AccNode, AtomNode, BinomNode, CeilNode, Content, FloorNode, FracNode, MathNode, ScriptNode,
    Span, SqrtNode,
};

fn symbol(name: &str) -> Content {
    Content::Symbol { name: name.to_string(), span: Span(0) }
}

fn atom(s: &str) -> Content {
    AtomNode::construct(s.to_string())
}

fn names_of(content: &Content) -> Vec<String> {
    let mut names = Vec::new();
    content.symbol_names(&mut names);
    names
}

#[test]
fn leaves_without_symbols_have_no_names() {
    assert!(names_of(&atom("alpha")).is_empty());
    assert!(names_of(&Content::Text("alpha".to_string())).is_empty());
    assert!(names_of(&Content::Space).is_empty());
    assert!(names_of(&Content::Linebreak).is_empty());
    assert!(names_of(&Content::Sequence(vec![])).is_empty());
}

#[test]
fn symbol_has_its_name() {
    assert_eq!(names_of(&symbol("alpha")), vec!["alpha"]);
}

#[test]
fn names_are_appended() {
    let mut names = vec!["first".to_string()];
    symbol("alpha").symbol_names(&mut names);
    atom("x").symbol_names(&mut names);
    symbol("beta").symbol_names(&mut names);
    assert_eq!(names, vec!["first", "alpha", "beta"]);
}

#[test]
fn names_come_in_conversion_order() {
    let tree = MathNode::construct(
        None,
        vec![
            symbol("a"),
            FracNode::construct(symbol("b"), Content::Sequence(vec![symbol("c"), symbol("a")])),
            BinomNode::construct(symbol("d"), symbol("e")),
            ScriptNode::construct(symbol("f"), Some(symbol("g")), Some(symbol("h"))),
            ScriptNode::construct(symbol("i"), None, Some(symbol("j"))),
            ScriptNode::construct(symbol("k"), Some(symbol("l")), None),
            SqrtNode::construct(symbol("m")),
            FloorNode::construct(symbol("n")),
            CeilNode::construct(symbol("o")),
            Content::Acc(Box::new(AccNode { base: symbol("p"), accent: '\u{303}' })),
            atom("q"),
        ],
    );
    assert_eq!(
        names_of(&tree),
        vec!["a", "b", "c", "a", "d", "e", "f", "g", "h", "i", "j", "k", "l", "m", "n", "o", "p"]
    );
}

#[test]
fn names_of_a_list() {
    let mut names = Vec::new();
    collect_symbol_names(&vec![symbol("x"), atom("y"), symbol("z")], &mut names);
    assert_eq!(names, vec!["x", "z"]);
}

#[test]
fn conversion_succeeds_exactly_if_all_names_resolve() {
    let tree = FracNode::construct(symbol("a"), ScriptNode::construct(atom("x"), None, Some(symbol("b"))));
    let row = |name: &str| NamedSymbol { name: name.to_string(), codepoint: 'x' };
    let both = SymbolTable::new(vec![], vec![row("a"), row("b")]);
    let only_a = SymbolTable::new(vec![], vec![row("a")]);
    let only_b = SymbolTable::new(vec![], vec![row("b")]);
    assert_eq!(tree.to_tex(&both), Ok("\\frac{x}{x^{x}}".to_string()));
    assert!(tree.to_tex(&only_a).is_err());
    assert!(tree.to_tex(&only_b).is_err());
}
