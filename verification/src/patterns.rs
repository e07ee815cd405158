//! The set of patterns that a run works with, one for each kind of token.

use vstd::prelude::*;
use crate::kind::TokenKind;
use crate::matcher::{Pattern, PatternError};

verus! {

/// A pattern that could not be made, and the kind of token that it was for.
#[derive(Debug)]
pub struct PatternFailure {
    pub kind: TokenKind,
    pub error: PatternError,
}

impl PatternFailure {
    /// What to tell the user: which pattern could not be made.
    pub open spec fn spec_message(self) -> Seq<char> {
        "Could not create "@ + self.kind.spec_command() + " regex pattern"@
    }

    /// What to tell the user: which pattern could not be made.
    pub fn message(&self) -> (text: String)
        ensures
            text@ == self.spec_message(),
    {
        let mut text = "Could not create ".to_owned();
        text.append(self.kind.command());
        text.append(" regex pattern");
        text
    }
}

/// One pattern for each kind of token.
#[derive(Debug)]
pub struct Patterns {
    label: Pattern,
    reference: Pattern,
    citation: Pattern,
    bibitem: Pattern,
}

impl Patterns {
    /// The pattern that finds the tokens of a kind.
    pub closed spec fn of(self, kind: TokenKind) -> Pattern {
        match kind {
            TokenKind::Label => self.label,
            TokenKind::Reference => self.reference,
            TokenKind::Citation => self.citation,
            TokenKind::BibliographyEntry => self.bibitem,
        }
    }

    /// Whether each pattern was compiled from the text that its kind
    /// prescribes.
    pub open spec fn is_standard(self) -> bool {
        forall|kind: TokenKind| #[trigger] self.of(kind).spec_source() == kind.spec_source()
    }

    /// Puts four patterns together, or hands on the failure of the first one
    /// that could not be made: the label's before the reference's, then the
    /// citation's, then the bibliography entry's.
    pub fn assemble(
        label: Result<Pattern, PatternError>,
        reference: Result<Pattern, PatternError>,
        citation: Result<Pattern, PatternError>,
        bibitem: Result<Pattern, PatternError>,
    ) -> (patterns: Result<Patterns, PatternFailure>)
        ensures
            match (label, reference, citation, bibitem) {
                (Ok(l), Ok(r), Ok(c), Ok(b)) => {
                    &&& patterns matches Ok(all)
                    &&& all.of(TokenKind::Label) == l
                    &&& all.of(TokenKind::Reference) == r
                    &&& all.of(TokenKind::Citation) == c
                    &&& all.of(TokenKind::BibliographyEntry) == b
                },
                (Err(error), _, _, _) => patterns matches Err(failure) && failure
                    == (PatternFailure { kind: TokenKind::Label, error }),
                (_, Err(error), _, _) => patterns matches Err(failure) && failure
                    == (PatternFailure { kind: TokenKind::Reference, error }),
                (_, _, Err(error), _) => patterns matches Err(failure) && failure
                    == (PatternFailure { kind: TokenKind::Citation, error }),
                (_, _, _, Err(error)) => patterns matches Err(failure) && failure
                    == (PatternFailure { kind: TokenKind::BibliographyEntry, error }),
            },
    {
        let label = match label {
            Ok(pattern) => pattern,
            Err(error) => return Err(PatternFailure { kind: TokenKind::Label, error }),
        };
        let reference = match reference {
            Ok(pattern) => pattern,
            Err(error) => return Err(PatternFailure { kind: TokenKind::Reference, error }),
        };
        let citation = match citation {
            Ok(pattern) => pattern,
            Err(error) => return Err(PatternFailure { kind: TokenKind::Citation, error }),
        };
        let bibitem = match bibitem {
            Ok(pattern) => pattern,
            Err(error) => return Err(
                PatternFailure { kind: TokenKind::BibliographyEntry, error },
            ),
        };
        Ok(Patterns { label, reference, citation, bibitem })
    }

    /// Compiles the pattern of each kind. Whether the engine accepts them is
    /// its own decision; `assemble` says what follows from it.
    pub fn new() -> (patterns: Result<Patterns, PatternFailure>)
        ensures
            patterns matches Ok(all) ==> all.is_standard(),
    {
        let label = Pattern::compile(TokenKind::Label.source());
        let reference = Pattern::compile(TokenKind::Reference.source());
        let citation = Pattern::compile(TokenKind::Citation.source());
        let bibitem = Pattern::compile(TokenKind::BibliographyEntry.source());
        Patterns::assemble(label, reference, citation, bibitem)
    }

    /// The pattern that finds the tokens of a kind.
    pub fn get(&self, kind: TokenKind) -> (pattern: &Pattern)
        ensures
            *pattern == self.of(kind),
    {
        match kind {
            TokenKind::Label => &self.label,
            TokenKind::Reference => &self.reference,
            TokenKind::Citation => &self.citation,
            TokenKind::BibliographyEntry => &self.bibitem,
        }
    }
}

} // verus!
