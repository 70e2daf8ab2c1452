use texify::symbols::{NamedSymbol, SymbolEntry, SymbolTable};
use texify::text::{chars_of, str_eq};
use texify::{ErrorKind, SourceError, Span};

fn table() -> SymbolTable {
    SymbolTable::new(
        vec![
            SymbolEntry { codepoint: '\u{300}', name: "grave_mark".to_string(), accent: false },
            SymbolEntry { codepoint: '\u{300}', name: "grave".to_string(), accent: true },
            SymbolEntry { codepoint: '\u{303}', name: "tilde".to_string(), accent: true },
            SymbolEntry { codepoint: '\u{303}', name: "widetilde".to_string(), accent: true },
            SymbolEntry { codepoint: '\u{221e}', name: "infty".to_string(), accent: false },
        ],
        vec![
            NamedSymbol { name: "infinity".to_string(), codepoint: '\u{221e}' },
            NamedSymbol { name: "infinity".to_string(), codepoint: 'x' },
            NamedSymbol { name: "arrow".to_string(), codepoint: '\u{2192}' },
        ],
    )
}

#[test]
fn command_takes_first_row() {
    let t = table();
    assert_eq!(t.command('\u{300}').map(|s| s.as_str()), Some("grave_mark"));
    assert_eq!(t.command('\u{303}').map(|s| s.as_str()), Some("tilde"));
    assert_eq!(t.command('\u{221e}').map(|s| s.as_str()), Some("infty"));
}

#[test]
fn command_of_unknown_codepoint() {
    let t = table();
    assert_eq!(t.command('q'), None);
}

#[test]
fn accent_command_skips_other_classes() {
    let t = table();
    assert_eq!(t.accent_command('\u{300}').map(|s| s.as_str()), Some("grave"));
    assert_eq!(t.accent_command('\u{303}').map(|s| s.as_str()), Some("tilde"));
    assert_eq!(t.accent_command('\u{221e}'), None);
    assert_eq!(t.accent_command('q'), None);
}

#[test]
fn resolve_takes_first_row() {
    let t = table();
    assert_eq!(t.resolve("infinity"), Some('\u{221e}'));
    assert_eq!(t.resolve("arrow"), Some('\u{2192}'));
}

#[test]
fn resolve_unknown_name() {
    let t = table();
    assert_eq!(t.resolve("infinit"), None);
    assert_eq!(t.resolve("infinityy"), None);
    assert_eq!(t.resolve(""), None);
}

#[test]
fn empty_table_knows_nothing() {
    let t = SymbolTable::new(vec![], vec![]);
    assert_eq!(t.command('a'), None);
    assert_eq!(t.accent_command('\u{303}'), None);
    assert_eq!(t.resolve("alpha"), None);
}

#[test]
fn str_eq_compares_characters() {
    assert!(str_eq("", ""));
    assert!(str_eq("block", "block"));
    assert!(!str_eq("block", "blocks"));
    assert!(!str_eq("block", "clock"));
    assert!(str_eq("\u{3b1}\u{221e}", "\u{3b1}\u{221e}"));
    assert!(!str_eq("\u{3b1}", "\u{3b2}"));
}

#[test]
fn chars_of_keeps_order() {
    assert_eq!(chars_of(""), Vec::<char>::new());
    assert_eq!(chars_of("a\u{221e}b"), vec!['a', '\u{221e}', 'b']);
}

#[test]
fn error_messages() {
    assert_eq!(ErrorKind::UnknownSymbol.message(), "unknown symbol");
    assert_eq!(ErrorKind::NotAllowedHere.message(), "not allowed here");
    assert_eq!(ErrorKind::NotAnAccent.message(), "not an accent");
}

#[test]
fn error_keeps_kind_and_span() {
    let e = SourceError::new(ErrorKind::NotAnAccent, Span(12));
    assert_eq!(e.kind, ErrorKind::NotAnAccent);
    assert_eq!(e.span, Span(12));
    assert_eq!(e, SourceError { kind: ErrorKind::NotAnAccent, span: Span(12) });
}
