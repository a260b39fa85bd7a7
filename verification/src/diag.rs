//! Diagnostics produced by the pipeline type checker and launcher.
//!
//! A diagnostic is a leveled message, optionally tagged with the pipeline
//! index it concerns, carrying the data needed to render it.  Diagnostics
//! accumulate in pipeline-index order during one check pass and are cleared
//! at the start of the next run.

use vstd::prelude::*;

use crate::ladder::{TermModel, TypeLadder, TypeTerm};
use crate::text::{spec_digits, fmt_usize, string_push};

verus! {

/// Severity of one diagnostic.
#[derive(Clone, Copy, PartialEq, Eq, Structural)]
pub enum Level {
    Info,
    Warn,
    Error,
}

/// Mathematical value of a [`Diagnostic`].
pub enum DiagModel {
    /// The pipeline had no nonempty process; launching is blocked.
    EmptyPipeline,
    /// One side of the junction before process `addr` declared no type.
    MissingTypeInfo { addr: int },
    /// The ladders at the junction before process `addr` agree on their
    /// first `level` terms.
    LadderMatch { addr: int, found: Seq<TermModel>, expected: Seq<TermModel>, level: int },
    /// The ladders at the junction before process `addr` diverge.
    LadderMismatch {
        addr: int,
        found: Seq<TermModel>,
        expected: Seq<TermModel>,
        first_match: int,
        first_mismatch: int,
    },
    /// Every junction passed.
    CheckOk,
    /// The operating system refused to spawn the pipeline.
    SpawnError { message: Seq<char> },
}

/// One diagnostic message.
pub enum Diagnostic {
    EmptyPipeline,
    MissingTypeInfo { addr: usize },
    LadderMatch { addr: usize, found: TypeLadder, expected: TypeLadder, level: usize },
    LadderMismatch {
        addr: usize,
        found: TypeLadder,
        expected: TypeLadder,
        first_match: usize,
        first_mismatch: usize,
    },
    CheckOk,
    SpawnError { message: String },
}

impl View for Diagnostic {
    type V = DiagModel;

    open spec fn view(&self) -> DiagModel {
        match self {
            Diagnostic::EmptyPipeline => DiagModel::EmptyPipeline,
            Diagnostic::MissingTypeInfo { addr } => DiagModel::MissingTypeInfo {
                addr: *addr as int,
            },
            Diagnostic::LadderMatch { addr, found, expected, level } => DiagModel::LadderMatch {
                addr: *addr as int,
                found: found@,
                expected: expected@,
                level: *level as int,
            },
            Diagnostic::LadderMismatch {
                addr,
                found,
                expected,
                first_match,
                first_mismatch,
            } => DiagModel::LadderMismatch {
                addr: *addr as int,
                found: found@,
                expected: expected@,
                first_match: *first_match as int,
                first_mismatch: *first_mismatch as int,
            },
            Diagnostic::CheckOk => DiagModel::CheckOk,
            Diagnostic::SpawnError { message } => DiagModel::SpawnError { message: message@ },
        }
    }
}

impl DeepView for Diagnostic {
    type V = DiagModel;

    open spec fn deep_view(&self) -> DiagModel {
        self.view()
    }
}

/// The textual form of a term's parameters, each preceded by one space.
pub open spec fn spec_param_list_str(ps: Seq<Seq<char>>) -> Seq<char>
    decreases ps.len(),
{
    if ps.len() == 0 {
        Seq::empty()
    } else {
        seq![' '] + ps[0] + spec_param_list_str(ps.drop_first())
    }
}

/// The textual form of one type term: its identifier, parenthesized together
/// with its parameters when it has any.
pub open spec fn spec_term_str(t: TermModel) -> Seq<char> {
    if t.params.len() == 0 {
        t.id
    } else {
        seq!['('] + t.id + spec_param_list_str(t.params) + seq![')']
    }
}

/// The textual form of the later rungs of a ladder, each preceded by the
/// ladder separator.
pub open spec fn spec_ladder_tail_str(l: Seq<TermModel>) -> Seq<char>
    decreases l.len(),
{
    if l.len() == 0 {
        Seq::empty()
    } else {
        seq!['~'] + spec_term_str(l[0]) + spec_ladder_tail_str(l.drop_first())
    }
}

/// The textual form of a whole ladder: its terms from most concrete to most
/// abstract, separated by the ladder separator.
pub open spec fn spec_ladder_str(l: Seq<TermModel>) -> Seq<char> {
    if l.len() == 0 {
        Seq::empty()
    } else {
        spec_term_str(l[0]) + spec_ladder_tail_str(l.drop_first())
    }
}

/// The renderable text of one diagnostic value.
pub open spec fn spec_render(d: DiagModel) -> Seq<char> {
    match d {
        DiagModel::EmptyPipeline => "empty pipeline"@,
        DiagModel::MissingTypeInfo { .. } => "could not check, missing typeinfo"@,
        DiagModel::CheckOk => "type check ok"@,
        DiagModel::LadderMatch { found, expected, level, .. } => "matching types. found "@
            + spec_ladder_str(found) + " expected "@ + spec_ladder_str(expected) + " level "@
            + spec_digits(level),
        DiagModel::LadderMismatch { found, expected, first_mismatch, .. } => "type error. found "@
            + spec_ladder_str(found) + " expected "@ + spec_ladder_str(expected) + " at "@
            + spec_digits(first_mismatch),
        DiagModel::SpawnError { message } => "error spawning pipeline: "@ + message,
    }
}

proof fn lemma_param_list_skip(ps: Seq<Seq<char>>, j: int)
    requires
        0 <= j < ps.len(),
    ensures
        spec_param_list_str(ps.skip(j)) == seq![' '] + ps[j] + spec_param_list_str(ps.skip(j + 1)),
{
    assert(ps.skip(j)[0] == ps[j]);
    assert(ps.skip(j).drop_first() =~~= ps.skip(j + 1));
}

/// Renders one type term.
pub fn render_term(t: &TypeTerm) -> (r: String)
    ensures
        r@ == spec_term_str(t@),
{
    if t.params.len() == 0 {
        return t.id.clone();
    }
    let mut r = String::new();
    string_push(&mut r, '(');
    r.append(t.id.as_str());
    let n = t.params.len();
    let mut j: usize = 0;
    proof {
        assert(t@.params.skip(0) =~~= t@.params);
        assert(r@ =~= seq!['('] + t@.id);
    }
    while j < n
        invariant
            n == t@.params.len(),
            j <= n,
            seq!['('] + t@.id + spec_param_list_str(t@.params) == r@ + spec_param_list_str(
                t@.params.skip(j as int),
            ),
        decreases n - j,
    {
        proof {
            lemma_param_list_skip(t@.params, j as int);
        }
        let ghost pre = r@;
        string_push(&mut r, ' ');
        r.append(t.params[j].as_str());
        proof {
            assert(r@ =~= pre + seq![' '] + t@.params[j as int]);
            assert(pre + (seq![' '] + t@.params[j as int] + spec_param_list_str(
                t@.params.skip(j as int + 1),
            )) =~= r@ + spec_param_list_str(t@.params.skip(j as int + 1)));
        }
        j += 1;
    }
    string_push(&mut r, ')');
    proof {
        assert(spec_param_list_str(t@.params.skip(n as int)) =~= Seq::<char>::empty());
        assert(r@ =~= spec_term_str(t@));
    }
    r
}

proof fn lemma_ladder_tail_skip(l: Seq<TermModel>, j: int)
    requires
        0 <= j < l.len(),
    ensures
        spec_ladder_tail_str(l.skip(j)) == seq!['~'] + spec_term_str(l[j]) + spec_ladder_tail_str(
            l.skip(j + 1),
        ),
{
    assert(l.skip(j)[0] == l[j]);
    assert(l.skip(j).drop_first() =~~= l.skip(j + 1));
}

/// Renders a whole ladder.
pub fn render_ladder(l: &TypeLadder) -> (r: String)
    ensures
        r@ == spec_ladder_str(l@),
{
    if l.terms.len() == 0 {
        let r = String::new();
        return r;
    }
    let mut r = render_term(&l.terms[0]);
    let n = l.terms.len();
    let mut j: usize = 1;
    proof {
        assert(l.terms[0].deep_view() == l@[0]);
        assert(l@.drop_first() =~~= l@.skip(1));
    }
    while j < n
        invariant
            n == l@.len(),
            1 <= j <= n,
            spec_ladder_str(l@) == r@ + spec_ladder_tail_str(l@.skip(j as int)),
        decreases n - j,
    {
        proof {
            lemma_ladder_tail_skip(l@, j as int);
            assert(l.terms[j as int].deep_view() == l@[j as int]);
        }
        let ghost pre = r@;
        string_push(&mut r, '~');
        r.append(render_term(&l.terms[j]).as_str());
        proof {
            assert(r@ =~= pre + seq!['~'] + spec_term_str(l@[j as int]));
            assert(pre + (seq!['~'] + spec_term_str(l@[j as int]) + spec_ladder_tail_str(
                l@.skip(j as int + 1),
            )) =~= r@ + spec_ladder_tail_str(l@.skip(j as int + 1)));
        }
        j += 1;
    }
    proof {
        assert(spec_ladder_tail_str(l@.skip(n as int)) =~= Seq::<char>::empty());
        assert(r@ + Seq::<char>::empty() =~= r@);
    }
    r
}

/// Severity of one diagnostic value.
pub open spec fn spec_level(d: DiagModel) -> Level {
    match d {
        DiagModel::EmptyPipeline => Level::Warn,
        DiagModel::MissingTypeInfo { .. } => Level::Warn,
        DiagModel::LadderMatch { .. } => Level::Info,
        DiagModel::LadderMismatch { .. } => Level::Error,
        DiagModel::CheckOk => Level::Info,
        DiagModel::SpawnError { .. } => Level::Error,
    }
}

/// The pipeline index a diagnostic value is addressed at, if any.
pub open spec fn spec_addr(d: DiagModel) -> Option<int> {
    match d {
        DiagModel::EmptyPipeline => None,
        DiagModel::MissingTypeInfo { addr } => Some(addr),
        DiagModel::LadderMatch { addr, .. } => Some(addr),
        DiagModel::LadderMismatch { addr, .. } => Some(addr),
        DiagModel::CheckOk => None,
        DiagModel::SpawnError { .. } => None,
    }
}

impl Diagnostic {
    /// Severity of this diagnostic.
    pub fn level(&self) -> (r: Level)
        ensures
            r == spec_level(self@),
    {
        match self {
            Diagnostic::EmptyPipeline => Level::Warn,
            Diagnostic::MissingTypeInfo { .. } => Level::Warn,
            Diagnostic::LadderMatch { .. } => Level::Info,
            Diagnostic::LadderMismatch { .. } => Level::Error,
            Diagnostic::CheckOk => Level::Info,
            Diagnostic::SpawnError { .. } => Level::Error,
        }
    }

    /// The renderable text of this diagnostic.
    pub fn render(&self) -> (r: String)
        ensures
            r@ == spec_render(self@),
    {
        match self {
            Diagnostic::EmptyPipeline => String::from_str("empty pipeline"),
            Diagnostic::MissingTypeInfo { .. } => String::from_str(
                "could not check, missing typeinfo",
            ),
            Diagnostic::CheckOk => String::from_str("type check ok"),
            Diagnostic::LadderMatch { found, expected, level, .. } => {
                let mut r = String::from_str("matching types. found ");
                r.append(render_ladder(found).as_str());
                r.append(" expected ");
                r.append(render_ladder(expected).as_str());
                r.append(" level ");
                r.append(fmt_usize(*level).as_str());
                proof {
                    assert(r@ =~= spec_render(self@));
                }
                r
            },
            Diagnostic::LadderMismatch { found, expected, first_mismatch, .. } => {
                let mut r = String::from_str("type error. found ");
                r.append(render_ladder(found).as_str());
                r.append(" expected ");
                r.append(render_ladder(expected).as_str());
                r.append(" at ");
                r.append(fmt_usize(*first_mismatch).as_str());
                proof {
                    assert(r@ =~= spec_render(self@));
                }
                r
            },
            Diagnostic::SpawnError { message } => {
                let mut r = String::from_str("error spawning pipeline: ");
                r.append(message.as_str());
                proof {
                    assert(r@ =~= spec_render(self@));
                }
                r
            },
        }
    }

    /// The pipeline index this diagnostic is addressed at, if any.
    pub fn addr(&self) -> (r: Option<usize>)
        ensures
            match r {
                Some(a) => spec_addr(self@) == Some(a as int),
                None => spec_addr(self@) is None,
            },
    {
        match self {
            Diagnostic::EmptyPipeline => None,
            Diagnostic::MissingTypeInfo { addr } => Some(*addr),
            Diagnostic::LadderMatch { addr, .. } => Some(*addr),
            Diagnostic::LadderMismatch { addr, .. } => Some(*addr),
            Diagnostic::CheckOk => None,
            Diagnostic::SpawnError { .. } => None,
        }
    }
}

} // verus!
