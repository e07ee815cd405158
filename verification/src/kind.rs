//! The four kinds of token that a scan recognises.

use vstd::prelude::*;

verus! {

/// What a token stands for in a document.
#[derive(Clone, Copy, Debug, PartialEq, Eq, Structural)]
pub enum TokenKind {
    /// An anchor declared with `\label{..}`.
    Label,
    /// A use of a label, written `\ref{..}`.
    Reference,
    /// A bibliography record declared with `\bibitem{..}`.
    BibliographyEntry,
    /// A use of a bibliography record, written `\cite{..}` or with one more
    /// character after the command name, as in `\citep{..}`.
    Citation,
}

impl TokenKind {
    /// The name of the markup command of this kind, without its backslash.
    pub open spec fn spec_command(self) -> Seq<char> {
        match self {
            TokenKind::Label => "label"@,
            TokenKind::Reference => "ref"@,
            TokenKind::BibliographyEntry => "bibitem"@,
            TokenKind::Citation => "cite"@,
        }
    }

    /// The regular expression that finds the tokens of this kind. Its one
    /// capturing group is the token: the text after the opening brace, up to
    /// the first closing brace.
    pub open spec fn spec_source(self) -> Seq<char> {
        match self {
            TokenKind::Label => r"\\label\{([^}]*)\}"@,
            TokenKind::Reference => r"\\ref\{([^}]*)\}"@,
            TokenKind::BibliographyEntry => r"\\bibitem\{([^}]*)\}"@,
            TokenKind::Citation => r"\\cite.?\{([^}]*)\}"@,
        }
    }

    /// Whether tokens of this kind declare something that should be used.
    pub open spec fn spec_is_declaration(self) -> bool {
        self == TokenKind::Label || self == TokenKind::BibliographyEntry
    }

    /// The kind that a token of this kind is reconciled with: a declaration
    /// with its uses, a use with its declaration.
    pub open spec fn spec_partner(self) -> TokenKind {
        match self {
            TokenKind::Label => TokenKind::Reference,
            TokenKind::Reference => TokenKind::Label,
            TokenKind::BibliographyEntry => TokenKind::Citation,
            TokenKind::Citation => TokenKind::BibliographyEntry,
        }
    }

    /// The name of the markup command of this kind, without its backslash.
    pub fn command(self) -> (name: &'static str)
        ensures
            name@ == self.spec_command(),
    {
        match self {
            TokenKind::Label => "label",
            TokenKind::Reference => "ref",
            TokenKind::BibliographyEntry => "bibitem",
            TokenKind::Citation => "cite",
        }
    }

    /// The regular expression that finds the tokens of this kind.
    pub fn source(self) -> (pattern: &'static str)
        ensures
            pattern@ == self.spec_source(),
    {
        match self {
            TokenKind::Label => r"\\label\{([^}]*)\}",
            TokenKind::Reference => r"\\ref\{([^}]*)\}",
            TokenKind::BibliographyEntry => r"\\bibitem\{([^}]*)\}",
            TokenKind::Citation => r"\\cite.?\{([^}]*)\}",
        }
    }

    /// Whether tokens of this kind declare something that should be used.
    pub fn is_declaration(self) -> (declares: bool)
        ensures
            declares == self.spec_is_declaration(),
    {
        match self {
            TokenKind::Label => true,
            TokenKind::BibliographyEntry => true,
            _ => false,
        }
    }

    /// The kind that a token of this kind is reconciled with. The partner of
    /// a declaration is a use, the partner of a use is a declaration, and
    /// each kind is the partner of its partner.
    pub fn partner(self) -> (other: TokenKind)
        ensures
            other == self.spec_partner(),
            other.spec_partner() == self,
            other.spec_is_declaration() != self.spec_is_declaration(),
    {
        match self {
            TokenKind::Label => TokenKind::Reference,
            TokenKind::Reference => TokenKind::Label,
            TokenKind::BibliographyEntry => TokenKind::Citation,
            TokenKind::Citation => TokenKind::BibliographyEntry,
        }
    }
}

} // verus!
