//! The scan of a set of documents, and the report on what it found.

use vstd::prelude::*;
use crate::kind::TokenKind;
use crate::matcher::{pattern_extraction, Pattern};
use crate::patterns::Patterns;
use crate::reconcile::{check_used, diagnostics};

verus! {

/// The ending of the name of a file that holds a document.
pub const DOCUMENT_EXTENSION: &'static str = ".tex";

/// A file as the scan sees it: its name, without the directories that lead to
/// it, and its lines, without their line ends.
#[derive(Debug)]
pub struct SourceFile {
    pub name: String,
    pub lines: Vec<String>,
}

/// Whether a file of this name holds a document. Only such files are scanned.
pub open spec fn is_document(name: Seq<char>) -> bool {
    DOCUMENT_EXTENSION@.is_suffix_of(name)
}

/// The tokens that a pattern finds in a sequence of lines: those of the first
/// line, then those of the second, and so on.
pub open spec fn lines_tokens(pattern: Pattern, lines: Seq<Seq<char>>) -> Seq<Seq<char>> {
    lines.flat_map(|line: Seq<char>| pattern.tokens_in(line))
}

/// The tokens that a pattern finds in a file: those of its lines if it holds
/// a document, none otherwise.
pub open spec fn file_tokens(pattern: Pattern, file: SourceFile) -> Seq<Seq<char>> {
    if is_document(file.name@) {
        lines_tokens(pattern, file.lines.deep_view())
    } else {
        Seq::empty()
    }
}

/// The tokens that a pattern finds in a sequence of files, in the order of
/// the files.
pub open spec fn tree_tokens(pattern: Pattern, files: Seq<SourceFile>) -> Seq<Seq<char>> {
    files.flat_map(|file: SourceFile| file_tokens(pattern, file))
}

/// The report on four collections of tokens: first the bibliography entries
/// that nothing cites, then the labels that nothing refers to.
pub open spec fn report_of(
    bibitems: Seq<Seq<char>>,
    citations: Seq<Seq<char>>,
    labels: Seq<Seq<char>>,
    references: Seq<Seq<char>>,
) -> Seq<Seq<char>> {
    diagnostics(bibitems, citations, TokenKind::BibliographyEntry.spec_command()) + diagnostics(
        labels,
        references,
        TokenKind::Label.spec_command(),
    )
}

/// The report on a sequence of files.
pub open spec fn usage_report(patterns: Patterns, files: Seq<SourceFile>) -> Seq<Seq<char>> {
    report_of(
        tree_tokens(patterns.of(TokenKind::BibliographyEntry), files),
        tree_tokens(patterns.of(TokenKind::Citation), files),
        tree_tokens(patterns.of(TokenKind::Label), files),
        tree_tokens(patterns.of(TokenKind::Reference), files),
    )
}

/// One more line adds what the pattern finds in it.
pub proof fn lemma_lines_tokens_push(pattern: Pattern, lines: Seq<Seq<char>>, line: Seq<char>)
    ensures
        lines_tokens(pattern, lines.push(line)) == lines_tokens(pattern, lines)
            + pattern.tokens_in(line),
{
    let found = |line: Seq<char>| pattern.tokens_in(line);
    assert(lines.push(line).map_values(found) =~= lines.map_values(found).push(found(line)));
    lines.map_values(found).lemma_flatten_push(found(line));
}

/// One more file adds what the pattern finds in it.
pub proof fn lemma_tree_tokens_push(pattern: Pattern, files: Seq<SourceFile>, file: SourceFile)
    ensures
        tree_tokens(pattern, files.push(file)) == tree_tokens(pattern, files) + file_tokens(
            pattern,
            file,
        ),
{
    let found = |file: SourceFile| file_tokens(pattern, file);
    assert(files.push(file).map_values(found) =~= files.map_values(found).push(found(file)));
    files.map_values(found).lemma_flatten_push(found(file));
}

/// The tokens found in two runs of files, one after the other, are those of
/// the first run followed by those of the second.
pub proof fn lemma_tree_tokens_concat(
    pattern: Pattern,
    first: Seq<SourceFile>,
    second: Seq<SourceFile>,
)
    ensures
        tree_tokens(pattern, first + second) == tree_tokens(pattern, first) + tree_tokens(
            pattern,
            second,
        ),
{
    let found = |file: SourceFile| file_tokens(pattern, file);
    assert((first + second).map_values(found) =~= first.map_values(found) + second.map_values(
        found,
    ));
    vstd::seq_lib::lemma_flatten_concat(first.map_values(found), second.map_values(found));
}

/// A file whose name does not end as a document's does is never scanned:
/// with it or without it among the files, the report is the same, whatever
/// its lines hold.
pub proof fn lemma_other_files_not_scanned(
    patterns: Patterns,
    before: Seq<SourceFile>,
    file: SourceFile,
    after: Seq<SourceFile>,
)
    requires
        !is_document(file.name@),
    ensures
        usage_report(patterns, before.push(file) + after) == usage_report(patterns, before + after),
{
    assert forall|kind: TokenKind|
        tree_tokens(#[trigger] patterns.of(kind), before.push(file) + after) == tree_tokens(
            patterns.of(kind),
            before + after,
        ) by {
        let pattern = patterns.of(kind);
        lemma_tree_tokens_concat(pattern, before.push(file), after);
        lemma_tree_tokens_concat(pattern, before, after);
        lemma_tree_tokens_push(pattern, before, file);
    }
}

/// A document is scanned for its lines alone: where it lies, and what it is
/// called before the ending of its name, changes nothing in the report.
pub proof fn lemma_documents_scanned_alike(
    patterns: Patterns,
    files: Seq<SourceFile>,
    others: Seq<SourceFile>,
)
    requires
        files.len() == others.len(),
        forall|i: int|
            0 <= i < files.len() ==> is_document(#[trigger] files[i].name@) == is_document(
                others[i].name@,
            ),
        forall|i: int|
            0 <= i < files.len() ==> #[trigger] files[i].lines.deep_view()
                == others[i].lines.deep_view(),
    ensures
        usage_report(patterns, files) == usage_report(patterns, others),
{
    assert forall|kind: TokenKind|
        tree_tokens(#[trigger] patterns.of(kind), files) == tree_tokens(
            patterns.of(kind),
            others,
        ) by {
        lemma_tree_tokens_alike(patterns.of(kind), files, others);
    }
}

proof fn lemma_tree_tokens_alike(pattern: Pattern, files: Seq<SourceFile>, others: Seq<SourceFile>)
    requires
        files.len() == others.len(),
        forall|i: int|
            0 <= i < files.len() ==> is_document(#[trigger] files[i].name@) == is_document(
                others[i].name@,
            ),
        forall|i: int|
            0 <= i < files.len() ==> #[trigger] files[i].lines.deep_view()
                == others[i].lines.deep_view(),
    ensures
        tree_tokens(pattern, files) == tree_tokens(pattern, others),
{
    let found = |file: SourceFile| file_tokens(pattern, file);
    assert(files.map_values(found) =~= others.map_values(found));
}

/// Whether a text ends with another.
pub fn ends_with(text: &str, ending: &str) -> (ends: bool)
    ensures
        ends == ending@.is_suffix_of(text@),
{
    let n: usize = text.unicode_len();
    let m: usize = ending.unicode_len();
    if n < m {
        return false;
    }
    let start: usize = n - m;
    let mut i: usize = 0;
    while i < m
        invariant
            n == text@.len(),
            m == ending@.len(),
            start == n - m,
            i <= m,
            forall|j: int| 0 <= j < i ==> text@[start + j] == ending@[j],
        decreases m - i,
    {
        if text.get_char(start + i) != ending.get_char(i) {
            return false;
        }
        i += 1;
    }
    true
}

/// Whether a file of this name holds a document.
pub fn is_document_name(name: &str) -> (document: bool)
    ensures
        document == is_document(name@),
{
    ends_with(name, DOCUMENT_EXTENSION)
}

/// The tokens collected so far, one collection for each kind. The collections
/// only grow, and keep every occurrence of a token.
#[derive(Debug)]
pub struct Usage {
    bibitems: Vec<String>,
    citations: Vec<String>,
    labels: Vec<String>,
    references: Vec<String>,
}

impl Usage {
    /// The tokens of a kind that were collected, in the order in which they
    /// were found.
    pub closed spec fn tokens(self, kind: TokenKind) -> Seq<Seq<char>> {
        match kind {
            TokenKind::BibliographyEntry => self.bibitems.deep_view(),
            TokenKind::Citation => self.citations.deep_view(),
            TokenKind::Label => self.labels.deep_view(),
            TokenKind::Reference => self.references.deep_view(),
        }
    }

    /// The report on the tokens that were collected.
    pub open spec fn spec_report(self) -> Seq<Seq<char>> {
        report_of(
            self.tokens(TokenKind::BibliographyEntry),
            self.tokens(TokenKind::Citation),
            self.tokens(TokenKind::Label),
            self.tokens(TokenKind::Reference),
        )
    }

    /// A scan that has seen nothing yet.
    pub fn new() -> (usage: Usage)
        ensures
            forall|kind: TokenKind| #[trigger] usage.tokens(kind) == Seq::<Seq<char>>::empty(),
    {
        let usage = Usage {
            bibitems: Vec::new(),
            citations: Vec::new(),
            labels: Vec::new(),
            references: Vec::new(),
        };
        usage
    }

    /// The tokens of a kind that were collected.
    pub fn tokens_of(&self, kind: TokenKind) -> (tokens: &Vec<String>)
        ensures
            tokens.deep_view() == self.tokens(kind),
    {
        match kind {
            TokenKind::BibliographyEntry => &self.bibitems,
            TokenKind::Citation => &self.citations,
            TokenKind::Label => &self.labels,
            TokenKind::Reference => &self.references,
        }
    }

    /// Scans one line: what each pattern finds in it is added to the
    /// collection of its kind.
    pub fn scan_line(&mut self, line: &str, patterns: &Patterns)
        ensures
            forall|kind: TokenKind| #[trigger]
                final(self).tokens(kind) == old(self).tokens(kind) + patterns.of(kind).tokens_in(
                    line@,
                ),
    {
        let mut bibitems = pattern_extraction(line, patterns.get(TokenKind::BibliographyEntry));
        let mut citations = pattern_extraction(line, patterns.get(TokenKind::Citation));
        let mut labels = pattern_extraction(line, patterns.get(TokenKind::Label));
        let mut references = pattern_extraction(line, patterns.get(TokenKind::Reference));
        self.bibitems.append(&mut bibitems);
        self.citations.append(&mut citations);
        self.labels.append(&mut labels);
        self.references.append(&mut references);
    }

    /// Scans a file: each of its lines in turn if it holds a document, nothing
    /// otherwise.
    pub fn scan_file(&mut self, file: &SourceFile, patterns: &Patterns)
        ensures
            forall|kind: TokenKind| #[trigger]
                final(self).tokens(kind) == old(self).tokens(kind) + file_tokens(
                    patterns.of(kind),
                    *file,
                ),
    {
        if !is_document_name(file.name.as_str()) {
            return;
        }
        let mut i: usize = 0;
        while i < file.lines.len()
            invariant
                i <= file.lines.len(),
                forall|kind: TokenKind| #[trigger]
                    self.tokens(kind) == old(self).tokens(kind) + lines_tokens(
                        patterns.of(kind),
                        file.lines.deep_view().take(i as int),
                    ),
            decreases file.lines.len() - i,
        {
            let ghost seen = file.lines.deep_view().take(i as int);
            let ghost next = file.lines.deep_view().take(i + 1);
            self.scan_line(file.lines[i].as_str(), patterns);
            assert forall|kind: TokenKind| #[trigger]
                self.tokens(kind) == old(self).tokens(kind) + lines_tokens(
                    patterns.of(kind),
                    next,
                ) by {
                assert(next =~= seen.push(file.lines[i as int]@));
                lemma_lines_tokens_push(patterns.of(kind), seen, file.lines[i as int]@);
            }
            i += 1;
        }
        assert(file.lines.deep_view().take(i as int) =~= file.lines.deep_view());
    }

    /// Reconciles what was collected: the bibliography entries with the
    /// citations, then the labels with the references.
    pub fn report(&self) -> (lines: Vec<String>)
        ensures
            lines.deep_view() == self.spec_report(),
    {
        let mut lines = check_used(
            self.bibitems.as_slice(),
            self.citations.as_slice(),
            TokenKind::BibliographyEntry.command(),
        );
        let mut label_lines = check_used(
            self.labels.as_slice(),
            self.references.as_slice(),
            TokenKind::Label.command(),
        );
        lines.append(&mut label_lines);
        lines
    }
}

/// Checks, in all the files that hold a document, that every label is
/// referred to and every bibliography entry is cited, and returns a line for
/// each one that is not.
pub fn usage_check(files: &[SourceFile], patterns: &Patterns) -> (lines: Vec<String>)
    ensures
        lines.deep_view() == usage_report(*patterns, files@),
{
    let mut usage = Usage::new();
    let mut i: usize = 0;
    while i < files.len()
        invariant
            i <= files.len(),
            forall|kind: TokenKind| #[trigger]
                usage.tokens(kind) == tree_tokens(patterns.of(kind), files@.take(i as int)),
        decreases files.len() - i,
    {
        let ghost seen = files@.take(i as int);
        let ghost next = files@.take(i + 1);
        usage.scan_file(&files[i], patterns);
        assert forall|kind: TokenKind| #[trigger]
            usage.tokens(kind) == tree_tokens(patterns.of(kind), next) by {
            assert(next =~= seen.push(files@[i as int]));
            lemma_tree_tokens_push(patterns.of(kind), seen, files@[i as int]);
        }
        i += 1;
    }
    assert(files@.take(i as int) =~= files@);
    usage.report()
}

} // verus!
