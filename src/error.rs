//! The error taxonomy: `GraphinaErrorKind` names the category of a failure,
//! `GraphinaError` binds a category to the caller's message.
//!
//! An error renders as `GraphinaError { kind: <kind>, message: "<message>" }`.
//! Inside the quotes a double quote is written `\"` and a backslash `\\`;
//! every other character of the message is written as it is.

use vstd::prelude::*;

verus! {

/// The closed set of failure categories.
#[derive(Debug, Clone, Copy, PartialEq, Eq, Structural)]
pub enum GraphinaErrorKind {
    /// The operation is meaningless for the given input (a null or degenerate graph).
    PointlessConcept,
    /// An algorithm terminated in an unexpected internal state.
    AlgorithmError,
    /// No feasible solution exists.
    Unfeasible,
    /// No path exists between the requested endpoints.
    NoPath,
    /// A cycle was expected but none exists.
    NoCycle,
    /// A referenced node does not exist in the graph.
    NodeNotFound,
    /// A referenced edge does not exist in the graph.
    EdgeNotFound,
    /// A cycle exists where an acyclic structure was required.
    HasACycle,
    /// The problem has no finite optimum.
    Unbounded,
    /// The requested algorithm or feature is not available for this graph variant.
    NotImplemented,
    /// More than one valid solution exists where a unique one was required.
    AmbiguousSolution,
    /// An iterative process exceeded its iteration budget.
    ExceededMaxIterations,
    /// Power iteration did not converge within `num_iterations` iterations.
    PowerIterationFailedConvergence { num_iterations: usize },
    /// An operation that assumes a non-empty graph received an empty one.
    EmptyGraph,
    /// A file or stream could not be parsed in the expected format.
    ParseError,
    /// A failure that no other category covers.
    Other,
}

/// The text of one decimal digit `d` (`d < 10`).
pub open spec fn digit_char(d: nat) -> char {
    seq!['0', '1', '2', '3', '4', '5', '6', '7', '8', '9'][d as int]
}

/// The decimal text of `n`, most significant digit first, without leading zeros.
pub open spec fn decimal(n: nat) -> Seq<char>
    decreases n,
{
    if n < 10 {
        seq![digit_char(n)]
    } else {
        decimal(n / 10).push(digit_char(n % 10))
    }
}

/// How one character of a message is written inside the quoted message field:
/// a double quote and a backslash get a backslash before them, every other
/// character stands as it is.
pub open spec fn escape_char(c: char) -> Seq<char> {
    if c == '"' || c == '\\' {
        seq!['\\', c]
    } else {
        seq![c]
    }
}

/// A message as it is written between the quotes of the message field.
pub open spec fn escaped(m: Seq<char>) -> Seq<char>
    decreases m.len(),
{
    if m.len() == 0 {
        Seq::empty()
    } else {
        escaped(m.drop_last()) + escape_char(m.last())
    }
}

/// The text of a kind: the variant's name, and for the convergence failure a
/// nested record with the iteration count.
pub open spec fn kind_name(k: GraphinaErrorKind) -> Seq<char> {
    match k {
        GraphinaErrorKind::PointlessConcept => "PointlessConcept"@,
        GraphinaErrorKind::AlgorithmError => "AlgorithmError"@,
        GraphinaErrorKind::Unfeasible => "Unfeasible"@,
        GraphinaErrorKind::NoPath => "NoPath"@,
        GraphinaErrorKind::NoCycle => "NoCycle"@,
        GraphinaErrorKind::NodeNotFound => "NodeNotFound"@,
        GraphinaErrorKind::EdgeNotFound => "EdgeNotFound"@,
        GraphinaErrorKind::HasACycle => "HasACycle"@,
        GraphinaErrorKind::Unbounded => "Unbounded"@,
        GraphinaErrorKind::NotImplemented => "NotImplemented"@,
        GraphinaErrorKind::AmbiguousSolution => "AmbiguousSolution"@,
        GraphinaErrorKind::ExceededMaxIterations => "ExceededMaxIterations"@,
        GraphinaErrorKind::PowerIterationFailedConvergence { num_iterations } =>
            "PowerIterationFailedConvergence { num_iterations: "@ + decimal(num_iterations as nat)
                + " }"@,
        GraphinaErrorKind::EmptyGraph => "EmptyGraph"@,
        GraphinaErrorKind::ParseError => "ParseError"@,
        GraphinaErrorKind::Other => "Other"@,
    }
}

/// The record `GraphinaError { kind: <kind text>, message: "<escaped message>" }`.
pub open spec fn record_text(kind_text: Seq<char>, message: Seq<char>) -> Seq<char> {
    "GraphinaError { kind: "@ + kind_text + ", message: \""@ + escaped(message) + "\" }"@
}

/// Relies on String::push: the character is appended at the end.
#[verifier::external_body]
fn push_char(s: &mut String, c: char)
    ensures
        final(s)@ == old(s)@.push(c),
{
    s.push(c)
}

/// Appends the decimal text of `n`.
fn push_decimal(out: &mut String, n: usize)
    ensures
        final(out)@ == old(out)@ + decimal(n as nat),
    decreases n,
{
    if n >= 10 {
        push_decimal(out, n / 10);
    }
    let d: usize = n % 10;
    let c: char = if d == 0 {
        '0'
    } else if d == 1 {
        '1'
    } else if d == 2 {
        '2'
    } else if d == 3 {
        '3'
    } else if d == 4 {
        '4'
    } else if d == 5 {
        '5'
    } else if d == 6 {
        '6'
    } else if d == 7 {
        '7'
    } else if d == 8 {
        '8'
    } else {
        '9'
    };
    push_char(out, c);
}

/// Appends `message` with each double quote and backslash escaped.
fn push_escaped(out: &mut String, message: &str)
    ensures
        final(out)@ == old(out)@ + escaped(message@),
{
    broadcast use vstd::string::group_string_axioms;
    let ghost start = out@;
    for c in it: message.chars()
        invariant
            it.seq() == message@,
            out@ == start + escaped(message@.take(it.index() as int)),
    {
        let ghost i = it.index() as int;
        proof {
            assert(message@.take(i + 1).drop_last() =~= message@.take(i));
        }
        if c == '"' || c == '\\' {
            push_char(out, '\\');
        }
        push_char(out, c);
        proof {
            assert(out@ =~= start + escaped(message@.take(i + 1)));
        }
    }
    proof {
        assert(message@.take(message@.len() as int) =~= message@);
    }
}

/// A reported failure: its category and the message given where it was detected.
#[derive(Debug, Clone)]
pub struct GraphinaError {
    pub kind: GraphinaErrorKind,
    pub message: String,
}

/// The rendering of an error: its record with the kind's text and the escaped message.
pub open spec fn rendered(e: GraphinaError) -> Seq<char> {
    record_text(kind_name(e.kind), e.message@)
}

impl GraphinaErrorKind {
    /// Appends the text of this kind.
    fn push_text(&self, out: &mut String)
        ensures
            final(out)@ == old(out)@ + kind_name(*self),
    {
        match self {
            GraphinaErrorKind::PointlessConcept => out.append("PointlessConcept"),
            GraphinaErrorKind::AlgorithmError => out.append("AlgorithmError"),
            GraphinaErrorKind::Unfeasible => out.append("Unfeasible"),
            GraphinaErrorKind::NoPath => out.append("NoPath"),
            GraphinaErrorKind::NoCycle => out.append("NoCycle"),
            GraphinaErrorKind::NodeNotFound => out.append("NodeNotFound"),
            GraphinaErrorKind::EdgeNotFound => out.append("EdgeNotFound"),
            GraphinaErrorKind::HasACycle => out.append("HasACycle"),
            GraphinaErrorKind::Unbounded => out.append("Unbounded"),
            GraphinaErrorKind::NotImplemented => out.append("NotImplemented"),
            GraphinaErrorKind::AmbiguousSolution => out.append("AmbiguousSolution"),
            GraphinaErrorKind::ExceededMaxIterations => out.append("ExceededMaxIterations"),
            GraphinaErrorKind::PowerIterationFailedConvergence { num_iterations } => {
                out.append("PowerIterationFailedConvergence { num_iterations: ");
                push_decimal(out, *num_iterations);
                out.append(" }");
            },
            GraphinaErrorKind::EmptyGraph => out.append("EmptyGraph"),
            GraphinaErrorKind::ParseError => out.append("ParseError"),
            GraphinaErrorKind::Other => out.append("Other"),
        }
    }
}

impl GraphinaError {
    /// The error as text: `GraphinaError { kind: <kind>, message: "<message>" }`,
    /// where a double quote or backslash in the message is preceded by a backslash.
    pub fn render(&self) -> (r: String)
        ensures
            r@ == rendered(*self),
    {
        let mut out = String::from_str("GraphinaError { kind: ");
        self.kind.push_text(&mut out);
        out.append(", message: \"");
        push_escaped(&mut out, self.message.as_str());
        out.append("\" }");
        out
    }

    /// An operation applied where it is meaningless.
    pub fn pointless(message: &str) -> (r: GraphinaError)
        ensures
            r.kind == GraphinaErrorKind::PointlessConcept,
            r.message@ == message@,
            rendered(r) == record_text("PointlessConcept"@, message@),
    {
        GraphinaError {
            kind: GraphinaErrorKind::PointlessConcept,
            message: String::from_str(message),
        }
    }

    /// An algorithm ended in an unexpected state.
    pub fn algorithm_error(message: &str) -> (r: GraphinaError)
        ensures
            r.kind == GraphinaErrorKind::AlgorithmError,
            r.message@ == message@,
            rendered(r) == record_text("AlgorithmError"@, message@),
    {
        GraphinaError {
            kind: GraphinaErrorKind::AlgorithmError,
            message: String::from_str(message),
        }
    }

    /// No feasible solution exists.
    pub fn unfeasible(message: &str) -> (r: GraphinaError)
        ensures
            r.kind == GraphinaErrorKind::Unfeasible,
            r.message@ == message@,
            rendered(r) == record_text("Unfeasible"@, message@),
    {
        GraphinaError { kind: GraphinaErrorKind::Unfeasible, message: String::from_str(message) }
    }

    /// No path joins the requested endpoints.
    pub fn no_path(message: &str) -> (r: GraphinaError)
        ensures
            r.kind == GraphinaErrorKind::NoPath,
            r.message@ == message@,
            rendered(r) == record_text("NoPath"@, message@),
    {
        GraphinaError { kind: GraphinaErrorKind::NoPath, message: String::from_str(message) }
    }

    /// A cycle was expected and none exists.
    pub fn no_cycle(message: &str) -> (r: GraphinaError)
        ensures
            r.kind == GraphinaErrorKind::NoCycle,
            r.message@ == message@,
            rendered(r) == record_text("NoCycle"@, message@),
    {
        GraphinaError { kind: GraphinaErrorKind::NoCycle, message: String::from_str(message) }
    }

    /// A referenced node is not in the graph.
    pub fn node_not_found(message: &str) -> (r: GraphinaError)
        ensures
            r.kind == GraphinaErrorKind::NodeNotFound,
            r.message@ == message@,
            rendered(r) == record_text("NodeNotFound"@, message@),
    {
        GraphinaError { kind: GraphinaErrorKind::NodeNotFound, message: String::from_str(message) }
    }

    /// A referenced edge is not in the graph.
    pub fn edge_not_found(message: &str) -> (r: GraphinaError)
        ensures
            r.kind == GraphinaErrorKind::EdgeNotFound,
            r.message@ == message@,
            rendered(r) == record_text("EdgeNotFound"@, message@),
    {
        GraphinaError { kind: GraphinaErrorKind::EdgeNotFound, message: String::from_str(message) }
    }

    /// A cycle exists where none was allowed.
    pub fn has_a_cycle(message: &str) -> (r: GraphinaError)
        ensures
            r.kind == GraphinaErrorKind::HasACycle,
            r.message@ == message@,
            rendered(r) == record_text("HasACycle"@, message@),
    {
        GraphinaError { kind: GraphinaErrorKind::HasACycle, message: String::from_str(message) }
    }

    /// The problem has no finite optimum.
    pub fn unbounded(message: &str) -> (r: GraphinaError)
        ensures
            r.kind == GraphinaErrorKind::Unbounded,
            r.message@ == message@,
            rendered(r) == record_text("Unbounded"@, message@),
    {
        GraphinaError { kind: GraphinaErrorKind::Unbounded, message: String::from_str(message) }
    }

    /// More than one solution exists where one was required.
    pub fn ambiguous_solution(message: &str) -> (r: GraphinaError)
        ensures
            r.kind == GraphinaErrorKind::AmbiguousSolution,
            r.message@ == message@,
            rendered(r) == record_text("AmbiguousSolution"@, message@),
    {
        GraphinaError {
            kind: GraphinaErrorKind::AmbiguousSolution,
            message: String::from_str(message),
        }
    }

    /// An iterative process ran out of iterations.
    pub fn exceeded_max_iteration(message: &str) -> (r: GraphinaError)
        ensures
            r.kind == GraphinaErrorKind::ExceededMaxIterations,
            r.message@ == message@,
            rendered(r) == record_text("ExceededMaxIterations"@, message@),
    {
        GraphinaError {
            kind: GraphinaErrorKind::ExceededMaxIterations,
            message: String::from_str(message),
        }
    }

    /// Power iteration did not converge within `num_iterations` iterations.
    pub fn power_iteration_failed_converge(num_iterations: usize, message: &str) -> (r:
        GraphinaError)
        ensures
            r.kind == (GraphinaErrorKind::PowerIterationFailedConvergence { num_iterations }),
            r.message@ == message@,
            rendered(r) == record_text(
                "PowerIterationFailedConvergence { num_iterations: "@ + decimal(
                    num_iterations as nat,
                ) + " }"@,
                message@,
            ),
    {
        GraphinaError {
            kind: GraphinaErrorKind::PowerIterationFailedConvergence { num_iterations },
            message: String::from_str(message),
        }
    }

    /// The graph is empty where it must not be.
    pub fn empty_graph(message: &str) -> (r: GraphinaError)
        ensures
            r.kind == GraphinaErrorKind::EmptyGraph,
            r.message@ == message@,
            rendered(r) == record_text("EmptyGraph"@, message@),
    {
        GraphinaError { kind: GraphinaErrorKind::EmptyGraph, message: String::from_str(message) }
    }

    /// Input could not be parsed.
    pub fn parse_error(message: &str) -> (r: GraphinaError)
        ensures
            r.kind == GraphinaErrorKind::ParseError,
            r.message@ == message@,
            rendered(r) == record_text("ParseError"@, message@),
    {
        GraphinaError { kind: GraphinaErrorKind::ParseError, message: String::from_str(message) }
    }

    /// A failure of no other category.
    pub fn other(message: &str) -> (r: GraphinaError)
        ensures
            r.kind == GraphinaErrorKind::Other,
            r.message@ == message@,
            rendered(r) == record_text("Other"@, message@),
    {
        GraphinaError { kind: GraphinaErrorKind::Other, message: String::from_str(message) }
    }
}

/// A message that holds no double quote and no backslash is written as it is.
pub proof fn lemma_escaped_plain(m: Seq<char>)
    requires
        forall|i: int| 0 <= i < m.len() ==> m[i] != '"' && m[i] != '\\',
    ensures
        escaped(m) == m,
    decreases m.len(),
{
    if m.len() > 0 {
        lemma_escaped_plain(m.drop_last());
        assert(m.drop_last().push(m.last()) =~= m);
    }
}

/// Rendering depends on the kind and the message text alone: two errors that
/// agree on both (an error and its clone, or one error rendered twice) render
/// to the same text.
pub proof fn lemma_render_deterministic(a: GraphinaError, b: GraphinaError)
    requires
        a.kind == b.kind,
        a.message@ == b.message@,
    ensures
        rendered(a) == rendered(b),
{
}

proof fn lemma_decimal_len(n: nat)
    ensures
        decimal(n).len() >= 1,
        n >= 10 ==> decimal(n).len() >= 2,
    decreases n,
{
    if n >= 10 {
        lemma_decimal_len(n / 10);
    }
}

proof fn lemma_digit_injective(a: nat, b: nat)
    requires
        a < 10,
        b < 10,
        digit_char(a) == digit_char(b),
    ensures
        a == b,
{
    let digits = seq!['0', '1', '2', '3', '4', '5', '6', '7', '8', '9'];
    assert(digits[0] == '0' && digits[1] == '1' && digits[2] == '2' && digits[3] == '3'
        && digits[4] == '4' && digits[5] == '5' && digits[6] == '6' && digits[7] == '7'
        && digits[8] == '8' && digits[9] == '9');
}

/// Different numbers have different decimal texts.
pub proof fn lemma_decimal_injective(a: nat, b: nat)
    requires
        decimal(a) == decimal(b),
    ensures
        a == b,
    decreases a,
{
    lemma_decimal_len(a);
    lemma_decimal_len(b);
    if a < 10 && b < 10 {
        assert(decimal(a) == seq![digit_char(a)]);
        assert(decimal(b) == seq![digit_char(b)]);
        assert(decimal(a)[0] == digit_char(a));
        assert(decimal(b)[0] == digit_char(b));
        lemma_digit_injective(a, b);
    } else if a >= 10 && b >= 10 {
        assert(decimal(a) == decimal(a / 10).push(digit_char(a % 10)));
        assert(decimal(b) == decimal(b / 10).push(digit_char(b % 10)));
        assert(decimal(a).last() == digit_char(a % 10));
        assert(decimal(b).last() == digit_char(b % 10));
        assert(decimal(a).drop_last() =~= decimal(a / 10));
        assert(decimal(b).drop_last() =~= decimal(b / 10));
        lemma_digit_injective(a % 10, b % 10);
        lemma_decimal_injective(a / 10, b / 10);
    }
}

/// The kind text names the kind: two different kinds, among them two
/// convergence failures with different iteration counts, never render to the
/// same kind text.
pub proof fn lemma_kind_text_distinct(k1: GraphinaErrorKind, k2: GraphinaErrorKind)
    requires
        k1 != k2,
    ensures
        kind_name(k1) != kind_name(k2),
{
    let prefix = "PowerIterationFailedConvergence { num_iterations: "@;
    let suffix = " }"@;
    reveal_strlit("PointlessConcept");
    reveal_strlit("AlgorithmError");
    reveal_strlit("Unfeasible");
    reveal_strlit("NoPath");
    reveal_strlit("NoCycle");
    reveal_strlit("NodeNotFound");
    reveal_strlit("EdgeNotFound");
    reveal_strlit("HasACycle");
    reveal_strlit("Unbounded");
    reveal_strlit("NotImplemented");
    reveal_strlit("AmbiguousSolution");
    reveal_strlit("ExceededMaxIterations");
    reveal_strlit("EmptyGraph");
    reveal_strlit("ParseError");
    reveal_strlit("Other");
    reveal_strlit("PowerIterationFailedConvergence { num_iterations: ");
    reveal_strlit(" }");
    if kind_name(k1) == kind_name(k2) {
        let t = kind_name(k1);
        if let GraphinaErrorKind::PowerIterationFailedConvergence { num_iterations: a } = k1 {
            lemma_decimal_len(a as nat);
            if let GraphinaErrorKind::PowerIterationFailedConvergence { num_iterations: b } = k2 {
                let da = decimal(a as nat);
                let db = decimal(b as nat);
                assert(t.subrange(prefix.len() as int, t.len() - suffix.len()) =~= da);
                assert(kind_name(k2).subrange(prefix.len() as int, t.len() - suffix.len()) =~= db);
                lemma_decimal_injective(a as nat, b as nat);
            }
        } else if let GraphinaErrorKind::PowerIterationFailedConvergence { num_iterations: b } = k2 {
            lemma_decimal_len(b as nat);
        } else {
            assert(t[0] == kind_name(k2)[0]);
            assert(t[1] == kind_name(k2)[1]);
            assert(t[2] == kind_name(k2)[2]);
        }
    }
}

} // verus!
