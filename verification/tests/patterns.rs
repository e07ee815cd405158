use regex::Regex;
use texcheck::{
    pattern_extraction, Pattern, PatternError, PatternFailure, Patterns, TokenKind,
};

const KINDS: [TokenKind; 4] = [
    TokenKind::Label,
    TokenKind::Reference,
    TokenKind::BibliographyEntry,
    TokenKind::Citation,
];

#[test]
fn kinds_name_their_commands() {
    assert_eq!(TokenKind::Label.command(), "label");
    assert_eq!(TokenKind::Reference.command(), "ref");
    assert_eq!(TokenKind::BibliographyEntry.command(), "bibitem");
    assert_eq!(TokenKind::Citation.command(), "cite");
}

#[test]
fn kinds_give_their_pattern_text() {
    assert_eq!(TokenKind::Label.source(), "\\\\label\\{([^}]*)\\}");
    assert_eq!(TokenKind::Reference.source(), "\\\\ref\\{([^}]*)\\}");
    assert_eq!(TokenKind::BibliographyEntry.source(), "\\\\bibitem\\{([^}]*)\\}");
    assert_eq!(TokenKind::Citation.source(), "\\\\cite.?\\{([^}]*)\\}");
}

#[test]
fn declarations_are_paired_with_their_uses() {
    assert_eq!(TokenKind::Label.partner(), TokenKind::Reference);
    assert_eq!(TokenKind::Reference.partner(), TokenKind::Label);
    assert_eq!(TokenKind::BibliographyEntry.partner(), TokenKind::Citation);
    assert_eq!(TokenKind::Citation.partner(), TokenKind::BibliographyEntry);
    for kind in KINDS {
        assert_eq!(kind.partner().partner(), kind);
        assert_ne!(kind.is_declaration(), kind.partner().is_declaration());
    }
    assert!(TokenKind::Label.is_declaration());
    assert!(TokenKind::BibliographyEntry.is_declaration());
    assert!(!TokenKind::Reference.is_declaration());
    assert!(!TokenKind::Citation.is_declaration());
}

#[test]
fn compiled_pattern_keeps_its_text() {
    for kind in KINDS {
        let pattern = Pattern::compile(kind.source()).unwrap();
        assert_eq!(pattern.source(), kind.source());
    }
    let pattern = Pattern::compile("key=([a-z]+)").unwrap();
    assert_eq!(pattern.source(), "key=([a-z]+)");
    assert_eq!(
        pattern_extraction("key=abc key=d, key=", &pattern),
        vec!["abc".to_string(), "d".to_string()]
    );
}

#[test]
fn invalid_pattern_text_is_rejected() {
    match Pattern::compile("(") {
        Err(PatternError::Rejected(cause)) => {
            assert_eq!(cause, Regex::new("(").unwrap_err());
        }
        other => panic!("expected a rejection, got {:?}", other),
    }
    assert!(matches!(Pattern::compile(r"\label{([^}]*)}"), Err(PatternError::Rejected(_))));
}

#[test]
fn pattern_without_exactly_one_group_is_refused() {
    assert!(matches!(Pattern::compile("abc"), Err(PatternError::NotOneGroup)));
    assert!(matches!(Pattern::compile(""), Err(PatternError::NotOneGroup)));
    assert!(matches!(Pattern::compile("(a)(b)"), Err(PatternError::NotOneGroup)));
    assert!(matches!(Pattern::compile("(a)?"), Err(PatternError::NotOneGroup)));
    assert!(matches!(Pattern::compile("(a)|b"), Err(PatternError::NotOneGroup)));
    assert!(matches!(Pattern::compile("(?:a)"), Err(PatternError::NotOneGroup)));
}

#[test]
fn pattern_with_one_group_in_every_match_is_accepted() {
    let pattern = Pattern::compile("(a)|(b)").unwrap();
    assert_eq!(
        pattern_extraction("a-b-c-a", &pattern),
        vec!["a".to_string(), "b".to_string(), "a".to_string()]
    );
}

#[test]
fn from_regex_decides_on_the_outcome() {
    assert!(matches!(
        Pattern::from_regex(Regex::new("(a)(b)")),
        Err(PatternError::NotOneGroup)
    ));
    assert!(matches!(Pattern::from_regex(Regex::new("a")), Err(PatternError::NotOneGroup)));
    match Pattern::from_regex(Regex::new("a)")) {
        Err(PatternError::Rejected(cause)) => assert_eq!(cause, Regex::new("a)").unwrap_err()),
        other => panic!("expected a rejection, got {:?}", other),
    }
    match Pattern::from_regex(Err(regex::Error::CompiledTooBig(7))) {
        Err(PatternError::Rejected(cause)) => assert_eq!(cause, regex::Error::CompiledTooBig(7)),
        other => panic!("expected a rejection, got {:?}", other),
    }
    let pattern = Pattern::from_regex(Regex::new("<([^>]*)>")).unwrap();
    assert_eq!(pattern.source(), "<([^>]*)>");
    assert_eq!(pattern_extraction("<a> <b>", &pattern), vec!["a".to_string(), "b".to_string()]);
}

#[test]
fn standard_patterns_compile() {
    let patterns = Patterns::new().unwrap();
    for kind in KINDS {
        assert_eq!(patterns.get(kind).source(), kind.source());
    }
}

#[test]
fn standard_patterns_find_their_own_kind() {
    let patterns = Patterns::new().unwrap();
    let line = r"\label{l} \ref{r} \bibitem{b} \cite{c}";
    let one = |t: &str| vec![t.to_string()];
    assert_eq!(pattern_extraction(line, patterns.get(TokenKind::Label)), one("l"));
    assert_eq!(pattern_extraction(line, patterns.get(TokenKind::Reference)), one("r"));
    assert_eq!(pattern_extraction(line, patterns.get(TokenKind::BibliographyEntry)), one("b"));
    assert_eq!(pattern_extraction(line, patterns.get(TokenKind::Citation)), one("c"));
}

fn good(kind: TokenKind) -> Result<Pattern, PatternError> {
    Pattern::compile(kind.source())
}

fn bad() -> Result<Pattern, PatternError> {
    Err(PatternError::NotOneGroup)
}

fn rejected() -> Result<Pattern, PatternError> {
    Pattern::compile("[")
}

fn failed_kind(outcome: Result<Patterns, PatternFailure>) -> TokenKind {
    outcome.unwrap_err().kind
}

#[test]
fn assemble_keeps_each_pattern_under_its_kind() {
    let patterns = Patterns::assemble(
        Pattern::compile("L(.)"),
        Pattern::compile("R(.)"),
        Pattern::compile("C(.)"),
        Pattern::compile("B(.)"),
    )
    .unwrap();
    assert_eq!(patterns.get(TokenKind::Label).source(), "L(.)");
    assert_eq!(patterns.get(TokenKind::Reference).source(), "R(.)");
    assert_eq!(patterns.get(TokenKind::Citation).source(), "C(.)");
    assert_eq!(patterns.get(TokenKind::BibliographyEntry).source(), "B(.)");
}

#[test]
fn assemble_reports_the_first_failure() {
    let l = TokenKind::Label;
    let r = TokenKind::Reference;
    let c = TokenKind::Citation;
    let b = TokenKind::BibliographyEntry;
    assert_eq!(failed_kind(Patterns::assemble(bad(), good(r), good(c), good(b))), l);
    assert_eq!(failed_kind(Patterns::assemble(good(l), bad(), good(c), good(b))), r);
    assert_eq!(failed_kind(Patterns::assemble(good(l), good(r), bad(), good(b))), c);
    assert_eq!(failed_kind(Patterns::assemble(good(l), good(r), good(c), bad())), b);
    assert_eq!(failed_kind(Patterns::assemble(bad(), bad(), bad(), bad())), l);
    assert_eq!(failed_kind(Patterns::assemble(good(l), bad(), bad(), bad())), r);
    assert_eq!(failed_kind(Patterns::assemble(good(l), good(r), bad(), bad())), c);
}

#[test]
fn assemble_hands_on_the_error_of_the_first_failure() {
    let failure =
        Patterns::assemble(good(TokenKind::Label), rejected(), bad(), bad()).unwrap_err();
    assert_eq!(failure.kind, TokenKind::Reference);
    assert!(matches!(failure.error, PatternError::Rejected(_)));
    let failure =
        Patterns::assemble(good(TokenKind::Label), bad(), rejected(), bad()).unwrap_err();
    assert_eq!(failure.kind, TokenKind::Reference);
    assert!(matches!(failure.error, PatternError::NotOneGroup));
}

#[test]
fn failure_message_names_the_pattern() {
    let message = |kind: TokenKind| PatternFailure { kind, error: PatternError::NotOneGroup }.message();
    assert_eq!(message(TokenKind::Label), "Could not create label regex pattern");
    assert_eq!(message(TokenKind::Reference), "Could not create ref regex pattern");
    assert_eq!(message(TokenKind::Citation), "Could not create cite regex pattern");
    assert_eq!(message(TokenKind::BibliographyEntry), "Could not create bibitem regex pattern");
}
