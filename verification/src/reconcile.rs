//! Reconciliation of declared tokens with the tokens that refer to them.

use vstd::prelude::*;

verus! {

/// The declared tokens that no used token equals, in the order of their
/// declaration. A token declared twice and never used stays twice.
pub open spec fn unreferenced(declared: Seq<Seq<char>>, used: Seq<Seq<char>>) -> Seq<Seq<char>> {
    declared.filter(|token: Seq<char>| !used.contains(token))
}

/// The line that reports a declared token as never referred to.
pub open spec fn diagnostic(method: Seq<char>, token: Seq<char>) -> Seq<char> {
    method + " [ "@ + token + " ] used but never referenced"@
}

/// The report of one reconciliation: a line for each declaration that nothing
/// refers to, in the order of the declarations.
pub open spec fn diagnostics(
    declared: Seq<Seq<char>>,
    used: Seq<Seq<char>>,
    method: Seq<char>,
) -> Seq<Seq<char>> {
    unreferenced(declared, used).map_values(|token: Seq<char>| diagnostic(method, token))
}

/// How often a text occurs in a sequence of texts.
pub open spec fn occurrences(texts: Seq<Seq<char>>, text: Seq<char>) -> nat
    decreases texts.len(),
{
    if texts.len() == 0 {
        0
    } else if texts.last() == text {
        occurrences(texts.drop_last(), text) + 1
    } else {
        occurrences(texts.drop_last(), text)
    }
}

/// What the last declaration adds to the unreferenced tokens: itself if
/// nothing refers to it, nothing otherwise.
pub proof fn lemma_unreferenced_last(declared: Seq<Seq<char>>, used: Seq<Seq<char>>)
    requires
        declared.len() > 0,
    ensures
        unreferenced(declared, used) == if used.contains(declared.last()) {
            unreferenced(declared.drop_last(), used)
        } else {
            unreferenced(declared.drop_last(), used).push(declared.last())
        },
{
    reveal(Seq::filter);
}

/// The report of a kind names each token in a line of its own: two tokens
/// with the same line are the same token.
pub proof fn lemma_diagnostic_names_token(method: Seq<char>, a: Seq<char>, b: Seq<char>)
    requires
        diagnostic(method, a) == diagnostic(method, b),
    ensures
        a == b,
{
    let start: nat = method.len() + " [ "@.len();
    assert(diagnostic(method, b).len() == start + b.len() + " ] used but never referenced"@.len());
    assert forall|i: int| 0 <= i < a.len() implies a[i] == b[i] by {
        assert(b[i] == diagnostic(method, b)[start + i]);
    }
}

/// Reconciliation runs one way, from the declarations to the uses: every line
/// of the report names a declared token that nothing refers to. A token that
/// is used but not declared is never reported.
pub proof fn lemma_reports_name_unused_declarations(
    declared: Seq<Seq<char>>,
    used: Seq<Seq<char>>,
    method: Seq<char>,
    i: int,
)
    requires
        0 <= i < diagnostics(declared, used, method).len(),
    ensures
        diagnostics(declared, used, method)[i] == diagnostic(
            method,
            unreferenced(declared, used)[i],
        ),
        declared.contains(unreferenced(declared, used)[i]),
        !used.contains(unreferenced(declared, used)[i]),
{
    let unused = |token: Seq<char>| !used.contains(token);
    let token = unreferenced(declared, used)[i];
    declared.lemma_filter_pred(unused, i);
    declared.lemma_filter_contains_rev(unused, token);
}

/// A declared token that nothing refers to is reported once for each of its
/// declarations: once where it is declared once, twice where it is declared
/// twice. A token that something refers to is never reported, however often
/// it is declared.
pub proof fn lemma_reported_once_per_declaration(
    declared: Seq<Seq<char>>,
    used: Seq<Seq<char>>,
    method: Seq<char>,
    token: Seq<char>,
)
    ensures
        !used.contains(token) ==> occurrences(
            diagnostics(declared, used, method),
            diagnostic(method, token),
        ) == occurrences(declared, token),
        used.contains(token) ==> occurrences(
            diagnostics(declared, used, method),
            diagnostic(method, token),
        ) == 0,
    decreases declared.len(),
{
    if declared.len() > 0 {
        let rest = declared.drop_last();
        let last = declared.last();
        lemma_reported_once_per_declaration(rest, used, method, token);
        lemma_unreferenced_last(declared, used);
        if !used.contains(last) {
            let lines = diagnostics(declared, used, method);
            assert(lines.drop_last() =~= diagnostics(rest, used, method));
            if diagnostic(method, last) == diagnostic(method, token) {
                lemma_diagnostic_names_token(method, last, token);
            }
        }
    }
}

/// A token that is declared once and never referred to is reported in
/// exactly one line.
pub proof fn lemma_single_declaration_reported_once(
    declared: Seq<Seq<char>>,
    used: Seq<Seq<char>>,
    method: Seq<char>,
    token: Seq<char>,
)
    requires
        occurrences(declared, token) == 1,
        !used.contains(token),
    ensures
        occurrences(diagnostics(declared, used, method), diagnostic(method, token)) == 1,
{
    lemma_reported_once_per_declaration(declared, used, method, token);
}

/// A token that is declared twice and never referred to is reported in two
/// lines, not in one.
pub proof fn lemma_duplicate_declaration_reported_twice(
    declared: Seq<Seq<char>>,
    used: Seq<Seq<char>>,
    method: Seq<char>,
    token: Seq<char>,
)
    requires
        occurrences(declared, token) == 2,
        !used.contains(token),
    ensures
        occurrences(diagnostics(declared, used, method), diagnostic(method, token)) == 2,
{
    lemma_reported_once_per_declaration(declared, used, method, token);
}

/// A token that is referred to is reported in no line, however often it is
/// declared.
pub proof fn lemma_referenced_never_reported(
    declared: Seq<Seq<char>>,
    used: Seq<Seq<char>>,
    method: Seq<char>,
    token: Seq<char>,
)
    requires
        used.contains(token),
    ensures
        occurrences(diagnostics(declared, used, method), diagnostic(method, token)) == 0,
{
    lemma_reported_once_per_declaration(declared, used, method, token);
}

/// Whether a token occurs among the used tokens.
pub fn is_used(token: &String, used: &[String]) -> (found: bool)
    ensures
        found == used.deep_view().contains(token@),
{
    let mut i: usize = 0;
    while i < used.len()
        invariant
            i <= used.len(),
            forall|j: int| 0 <= j < i ==> used.deep_view()[j] != token@,
        decreases used.len() - i,
    {
        if used[i] == *token {
            assert(used.deep_view()[i as int] == token@);
            return true;
        }
        i += 1;
    }
    false
}

/// Writes the line that reports a token of the given kind as never referred
/// to.
pub fn diagnostic_line(method: &str, token: &str) -> (line: String)
    ensures
        line@ == diagnostic(method@, token@),
{
    let mut line = method.to_owned();
    line.append(" [ ");
    line.append(token);
    line.append(" ] used but never referenced");
    line
}

/// Checks that every stated item is also used, and returns a line for each
/// one that is not.
pub fn check_used(stated: &[String], used: &[String], method: &str) -> (lines: Vec<String>)
    ensures
        lines.deep_view() == diagnostics(stated.deep_view(), used.deep_view(), method@),
{
    let mut lines: Vec<String> = Vec::new();
    let mut i: usize = 0;
    while i < stated.len()
        invariant
            i <= stated.len(),
            lines.deep_view() == diagnostics(
                stated.deep_view().take(i as int),
                used.deep_view(),
                method@,
            ),
        decreases stated.len() - i,
    {
        let ghost before = stated.deep_view().take(i as int);
        let ghost next = stated.deep_view().take(i + 1);
        assert(next.drop_last() =~= before);
        let ghost reported = lines.deep_view();
        proof {
            lemma_unreferenced_last(next, used.deep_view());
        }
        if !is_used(&stated[i], used) {
            lines.push(diagnostic_line(method, stated[i].as_str()));
            assert(lines.deep_view() =~= reported.push(diagnostic(method@, stated[i as int]@)));
        }
        i += 1;
    }
    assert(stated.deep_view().take(i as int) =~= stated.deep_view());
    lines
}

} // verus!
