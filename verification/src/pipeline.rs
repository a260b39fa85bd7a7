//! The pipeline launcher: it owns the ordered process list under edit, runs
//! the type-ladder check over it, and turns an accepted pipeline into a
//! launch plan (one process description per stage, chained stdout to stdin)
//! for the runtime to spawn.

use vstd::prelude::*;

use crate::diag::{DiagModel, Diagnostic};
use crate::ladder::{MatchResult, TermModel, TypeLadder};
use crate::process_types::{spec_stdin, spec_stdout, EntryModel, ProcessTypes};
use crate::text::chars_to_string;

verus! {

/// A pipeline under edit: an ordered list of processes, each an ordered list
/// of argument slots, each a list of characters.  A space starts a new
/// argument slot, a pipe character starts a new process slot, and any other
/// character lands in the current (last) argument slot.
pub struct PipelineEditor {
    pub procs: Vec<Vec<Vec<char>>>,
}

impl View for PipelineEditor {
    type V = Seq<Seq<Seq<char>>>;

    open spec fn view(&self) -> Seq<Seq<Seq<char>>> {
        self.procs.deep_view()
    }
}

/// The editor content with a first process slot and argument slot present:
/// typing into an empty editor opens them.
pub open spec fn spec_ensure_slot(ps: Seq<Seq<Seq<char>>>) -> Seq<Seq<Seq<char>>> {
    if ps.len() == 0 {
        seq![seq![Seq::<char>::empty()]]
    } else {
        ps
    }
}

/// The editor content after one character of input.
pub open spec fn spec_send_char(ps: Seq<Seq<Seq<char>>>, c: char) -> Seq<Seq<Seq<char>>> {
    let ps = spec_ensure_slot(ps);
    if c == '|' {
        ps.push(seq![Seq::<char>::empty()])
    } else if c == ' ' {
        ps.update(ps.len() - 1, ps.last().push(Seq::<char>::empty()))
    } else {
        let p = ps.last();
        let p2 = if p.len() == 0 {
            seq![seq![c]]
        } else {
            p.update(p.len() - 1, p.last().push(c))
        };
        ps.update(ps.len() - 1, p2)
    }
}

/// The editor content with its first process slot reopened as one empty
/// argument slot.
pub open spec fn spec_clear_first(ps: Seq<Seq<Seq<char>>>) -> Seq<Seq<Seq<char>>> {
    if ps.len() == 0 {
        ps
    } else {
        ps.update(0, seq![Seq::<char>::empty()])
    }
}

/// The editor content after one backspace: the last character of the last
/// argument slot goes, or the slot itself when it is already empty.
pub open spec fn spec_backspace(ps: Seq<Seq<Seq<char>>>) -> Seq<Seq<Seq<char>>> {
    if ps.len() == 0 {
        ps
    } else {
        let p = ps.last();
        if p.len() == 0 {
            ps.drop_last()
        } else if p.last().len() > 0 {
            ps.update(ps.len() - 1, p.update(p.len() - 1, p.last().drop_last()))
        } else if p.len() > 1 {
            ps.update(ps.len() - 1, p.drop_last())
        } else {
            ps.drop_last()
        }
    }
}

impl PipelineEditor {
    /// A fresh, empty pipeline editor.
    pub fn new() -> (r: PipelineEditor)
        ensures
            r@ == Seq::<Seq<Seq<char>>>::empty(),
    {
        let r = PipelineEditor { procs: Vec::new() };
        proof {
            assert(r@ =~~= Seq::<Seq<Seq<char>>>::empty());
        }
        r
    }

    /// How many process slots the editor currently holds.
    pub fn process_count(&self) -> (n: usize)
        ensures
            n == self@.len(),
    {
        self.procs.len()
    }

    /// Routes one typed character into the editor.
    pub fn send_char(&mut self, c: char)
        ensures
            final(self)@ == spec_send_char(old(self)@, c),
    {
        if self.procs.len() == 0 {
            let mut slot: Vec<Vec<char>> = Vec::new();
            slot.push(Vec::new());
            self.procs.push(slot);
            proof {
                assert(self@ =~~= spec_ensure_slot(old(self)@));
            }
        }
        let ghost ens = self@;
        proof {
            assert(ens == spec_ensure_slot(old(self)@));
        }
        let n = self.procs.len();
        if c == '|' {
            let mut slot: Vec<Vec<char>> = Vec::new();
            slot.push(Vec::new());
            self.procs.push(slot);
            proof {
                assert(self@ =~~= ens.push(seq![Seq::<char>::empty()]));
            }
        } else if c == ' ' {
            self.procs[n - 1].push(Vec::new());
            proof {
                assert(self@ =~~= ens.update(
                    ens.len() - 1,
                    ens.last().push(Seq::<char>::empty()),
                ));
            }
        } else {
            let m = self.procs[n - 1].len();
            if m == 0 {
                let mut arg: Vec<char> = Vec::new();
                arg.push(c);
                self.procs[n - 1].push(arg);
                proof {
                    assert(self@ =~~= ens.update(ens.len() - 1, seq![seq![c]]));
                }
            } else {
                self.procs[n - 1][m - 1].push(c);
                proof {
                    assert(self@ =~~= ens.update(
                        ens.len() - 1,
                        ens.last().update(ens.last().len() - 1, ens.last().last().push(c)),
                    ));
                }
            }
        }
    }

    /// Removes the last character, or the slot it would have been in.
    pub fn backspace(&mut self)
        ensures
            final(self)@ == spec_backspace(old(self)@),
    {
        let n = self.procs.len();
        if n == 0 {
            return ;
        }
        let m = self.procs[n - 1].len();
        if m == 0 {
            self.procs.pop();
            proof {
                assert(self@ =~~= old(self)@.drop_last());
            }
            return ;
        }
        let alen = self.procs[n - 1][m - 1].len();
        if alen > 0 {
            self.procs[n - 1][m - 1].pop();
            proof {
                let p = old(self)@.last();
                assert(self@ =~~= old(self)@.update(
                    old(self)@.len() - 1,
                    p.update(p.len() - 1, p.last().drop_last()),
                ));
            }
        } else if m > 1 {
            self.procs[n - 1].pop();
            proof {
                assert(self@ =~~= old(self)@.update(
                    old(self)@.len() - 1,
                    old(self)@.last().drop_last(),
                ));
            }
        } else {
            self.procs.pop();
            proof {
                assert(self@ =~~= old(self)@.drop_last());
            }
        }
    }

    /// Empties the editor of every process slot.
    pub fn clear(&mut self)
        ensures
            final(self)@ == Seq::<Seq<Seq<char>>>::empty(),
    {
        self.procs.clear();
        proof {
            assert(self@ =~~= Seq::<Seq<Seq<char>>>::empty());
        }
    }

    /// Discards the content of the first process slot, reopening it as a
    /// single empty argument slot; used when a leading keyword such as `cd`
    /// is consumed by the controller rather than kept in the pipeline.
    pub fn clear_first_slot(&mut self)
        ensures
            final(self)@ == spec_clear_first(old(self)@),
    {
        if self.procs.len() == 0 {
            return ;
        }
        let mut slot: Vec<Vec<char>> = Vec::new();
        slot.push(Vec::new());
        self.procs[0] = slot;
        proof {
            assert(self@ =~~= old(self)@.update(0, seq![Seq::<char>::empty()]));
        }
    }
}

/// The argument slots of one process that actually hold text, in order.
pub open spec fn spec_nonempty_args(p: Seq<Seq<char>>) -> Seq<Seq<char>>
    decreases p.len(),
{
    if p.len() == 0 {
        Seq::empty()
    } else if p[0].len() > 0 {
        seq![p[0]] + spec_nonempty_args(p.drop_first())
    } else {
        spec_nonempty_args(p.drop_first())
    }
}

/// The effective token vectors of the pipeline: empty argument slots are
/// dropped, and processes left without any token are dropped whole.
pub open spec fn spec_tokens(ps: Seq<Seq<Seq<char>>>) -> Seq<Seq<Seq<char>>>
    decreases ps.len(),
{
    if ps.len() == 0 {
        Seq::empty()
    } else {
        let p = spec_nonempty_args(ps[0]);
        let rest = spec_tokens(ps.drop_first());
        if p.len() > 0 {
            seq![p] + rest
        } else {
            rest
        }
    }
}

proof fn lemma_nonempty_args_skip(p: Seq<Seq<char>>, j: int)
    requires
        0 <= j < p.len(),
    ensures
        p[j].len() > 0 ==> spec_nonempty_args(p.skip(j)) == seq![p[j]] + spec_nonempty_args(
            p.skip(j + 1),
        ),
        p[j].len() == 0 ==> spec_nonempty_args(p.skip(j)) == spec_nonempty_args(p.skip(j + 1)),
{
    assert(p.skip(j)[0] == p[j]);
    assert(p.skip(j).drop_first() =~~= p.skip(j + 1));
}

proof fn lemma_tokens_skip(ps: Seq<Seq<Seq<char>>>, i: int)
    requires
        0 <= i < ps.len(),
    ensures
        spec_nonempty_args(ps[i]).len() > 0 ==> spec_tokens(ps.skip(i)) == seq![
            spec_nonempty_args(ps[i]),
        ] + spec_tokens(ps.skip(i + 1)),
        spec_nonempty_args(ps[i]).len() == 0 ==> spec_tokens(ps.skip(i)) == spec_tokens(
            ps.skip(i + 1),
        ),
{
    assert(ps.skip(i)[0] == ps[i]);
    assert(ps.skip(i).drop_first() =~~= ps.skip(i + 1));
}

/// Every process the token filter keeps still has at least one token.
pub proof fn lemma_tokens_nonempty(ps: Seq<Seq<Seq<char>>>)
    ensures
        forall|i: int| 0 <= i < spec_tokens(ps).len() ==> (#[trigger] spec_tokens(ps)[i]).len() > 0,
    decreases ps.len(),
{
    if ps.len() > 0 {
        lemma_tokens_nonempty(ps.drop_first());
        let p = spec_nonempty_args(ps[0]);
        let rest = spec_tokens(ps.drop_first());
        if p.len() > 0 {
            assert forall|i: int| 0 <= i < spec_tokens(ps).len() implies (#[trigger] spec_tokens(
                ps,
            )[i]).len() > 0 by {
                if i > 0 {
                    assert(spec_tokens(ps)[i] == rest[i - 1]);
                }
            }
        }
    }
}

/// Reads the argument slots of one process, keeping the nonempty ones.
pub(crate) fn collect_args(p: &Vec<Vec<char>>) -> (r: Vec<String>)
    ensures
        r.deep_view() == spec_nonempty_args(p.deep_view()),
{
    let mut r: Vec<String> = Vec::new();
    let n = p.len();
    let mut j: usize = 0;
    proof {
        assert(p.deep_view().skip(0) =~~= p.deep_view());
        assert(r.deep_view() + spec_nonempty_args(p.deep_view()) =~~= spec_nonempty_args(
            p.deep_view(),
        ));
    }
    while j < n
        invariant
            n == p.len(),
            j <= n,
            spec_nonempty_args(p.deep_view()) == r.deep_view() + spec_nonempty_args(
                p.deep_view().skip(j as int),
            ),
        decreases n - j,
    {
        proof {
            lemma_nonempty_args_skip(p.deep_view(), j as int);
        }
        if p[j].len() > 0 {
            let ghost pre = r.deep_view();
            let s = chars_to_string(&p[j]);
            r.push(s);
            proof {
                assert(r.deep_view() =~~= pre.push(p.deep_view()[j as int]));
                assert(pre + (seq![p.deep_view()[j as int]] + spec_nonempty_args(
                    p.deep_view().skip(j as int + 1),
                )) =~~= r.deep_view() + spec_nonempty_args(p.deep_view().skip(j as int + 1)));
            }
        }
        j += 1;
    }
    proof {
        assert(p.deep_view().skip(n as int) =~~= Seq::<Seq<char>>::empty());
    }
    r
}

/// Diagnostics and verdict of the walk from junction `j` on, entered with
/// `prev` as the declared output ladder of the stage before `j`.
///
/// At each junction both a previous output ladder and a declared input
/// ladder must be present and nonempty for a real comparison; a missing or
/// empty side is only warned about (permissively), and the first genuine
/// mismatch ends the walk at once with an error.
pub open spec fn spec_check_from(
    cat: Seq<EntryModel>,
    toks: Seq<Seq<Seq<char>>>,
    j: int,
    prev: Option<Seq<TermModel>>,
) -> (Seq<DiagModel>, bool)
    decreases toks.len() - j,
{
    if !(0 <= j < toks.len()) {
        (seq![DiagModel::CheckOk], true)
    } else {
        let inp = spec_stdin(cat, toks[j]);
        let next = spec_stdout(cat, toks[j]);
        match (prev, inp) {
            (Some(found), Some(expected)) => match crate::ladder::spec_match(found, expected) {
                MatchResult::Matched(k) => {
                    let rest = spec_check_from(cat, toks, j + 1, next);
                    (
                        seq![
                            DiagModel::LadderMatch { addr: j, found, expected, level: k as int },
                        ] + rest.0,
                        rest.1,
                    )
                },
                MatchResult::Mismatched(m, x) => (
                    seq![
                        DiagModel::LadderMismatch {
                            addr: j,
                            found,
                            expected,
                            first_match: m as int,
                            first_mismatch: x as int,
                        },
                    ],
                    false,
                ),
                MatchResult::Unknown => {
                    let rest = spec_check_from(cat, toks, j + 1, next);
                    (seq![DiagModel::MissingTypeInfo { addr: j }] + rest.0, rest.1)
                },
            },
            _ => {
                let rest = spec_check_from(cat, toks, j + 1, next);
                if j > 0 {
                    (seq![DiagModel::MissingTypeInfo { addr: j }] + rest.0, rest.1)
                } else {
                    rest
                }
            },
        }
    }
}

/// Diagnostics and verdict of one whole check pass over the editor content.
pub open spec fn spec_typecheck(cat: Seq<EntryModel>, ed: Seq<Seq<Seq<char>>>) -> (
    Seq<DiagModel>,
    bool,
) {
    let toks = spec_tokens(ed);
    if toks.len() == 0 {
        (seq![DiagModel::EmptyPipeline], false)
    } else {
        spec_check_from(cat, toks, 0, None)
    }
}

/// Mathematical value of one planned process of a launch.
pub struct ExecModel {
    pub program: Seq<char>,
    pub args: Seq<Seq<char>>,
    pub cwd: Option<Seq<char>>,
}

/// One planned process: the program, its arguments, and the working
/// directory it is to start in.
pub struct ExecSpec {
    pub program: String,
    pub args: Vec<String>,
    pub cwd: Option<String>,
}

impl View for ExecSpec {
    type V = ExecModel;

    open spec fn view(&self) -> ExecModel {
        ExecModel {
            program: self.program@,
            args: self.args.deep_view(),
            cwd: self.cwd.deep_view(),
        }
    }
}

impl DeepView for ExecSpec {
    type V = ExecModel;

    open spec fn deep_view(&self) -> ExecModel {
        self.view()
    }
}

/// A fully planned pipeline run: one process description per stage, to be
/// spawned with the standard output of each stage fed into the standard
/// input of the next, and the final stage's output streamed to the view.
pub struct LaunchPlan {
    pub execs: Vec<ExecSpec>,
}

impl View for LaunchPlan {
    type V = Seq<ExecModel>;

    open spec fn view(&self) -> Seq<ExecModel> {
        self.execs.deep_view()
    }
}

/// The process graph planned for the given effective tokens and working
/// directory: stage `i` runs program `toks[i][0]` with the remaining tokens
/// as arguments.
pub open spec fn spec_plan(toks: Seq<Seq<Seq<char>>>, cwd: Option<Seq<char>>) -> Seq<ExecModel> {
    Seq::new(
        toks.len(),
        |i: int| ExecModel { program: toks[i][0], args: toks[i].drop_first(), cwd },
    )
}

/// The pipeline launcher: the process list under edit, the configured
/// working directory, the type catalog consulted by the checker, and the
/// diagnostic buffer of the current pass.
pub struct PipelineLauncher {
    pub editor: PipelineEditor,
    pub cwd: Option<String>,
    pub types: ProcessTypes,
    pub diag: Vec<Diagnostic>,
}

impl PipelineLauncher {
    /// A launcher with an empty pipeline, no working-directory override and
    /// an empty catalog.
    pub fn new() -> (r: PipelineLauncher)
        ensures
            r.editor@ == Seq::<Seq<Seq<char>>>::empty(),
            r.cwd is None,
            r.types@ == Seq::<EntryModel>::empty(),
            r.diag.deep_view() == Seq::<DiagModel>::empty(),
    {
        let r = PipelineLauncher {
            editor: PipelineEditor::new(),
            cwd: None,
            types: ProcessTypes::new(),
            diag: Vec::new(),
        };
        proof {
            assert(r.diag.deep_view() =~~= Seq::<DiagModel>::empty());
        }
        r
    }

    /// The current effective token vectors: empty argument slots are
    /// dropped, processes without tokens are dropped, and the result is a
    /// pure function of the editor content.
    pub fn get_strings(&self) -> (r: Vec<Vec<String>>)
        ensures
            r.deep_view() == spec_tokens(self.editor@),
    {
        let mut r: Vec<Vec<String>> = Vec::new();
        let n = self.editor.procs.len();
        let mut i: usize = 0;
        proof {
            assert(self.editor@.skip(0) =~~= self.editor@);
            assert(r.deep_view() + spec_tokens(self.editor@) =~~= spec_tokens(self.editor@));
        }
        while i < n
            invariant
                n == self.editor@.len(),
                i <= n,
                spec_tokens(self.editor@) == r.deep_view() + spec_tokens(
                    self.editor@.skip(i as int),
                ),
            decreases n - i,
        {
            proof {
                lemma_tokens_skip(self.editor@, i as int);
            }
            let args = collect_args(&self.editor.procs[i]);
            if args.len() > 0 {
                let ghost pre = r.deep_view();
                let ghost av = args.deep_view();
                r.push(args);
                proof {
                    assert(r.deep_view() =~~= pre.push(av));
                    assert(pre + (seq![av] + spec_tokens(self.editor@.skip(i as int + 1)))
                        =~~= r.deep_view() + spec_tokens(self.editor@.skip(i as int + 1)));
                }
            }
            i += 1;
        }
        proof {
            assert(self.editor@.skip(n as int) =~~= Seq::<Seq<Seq<char>>>::empty());
            assert(r.deep_view() + spec_tokens(self.editor@.skip(n as int)) =~~= r.deep_view());
        }
        r
    }

    /// Clears the diagnostics (and, in the running system, the output view)
    /// before a new run.
    pub fn pty_reset(&mut self)
        ensures
            final(self).editor == old(self).editor,
            final(self).cwd == old(self).cwd,
            final(self).types == old(self).types,
            final(self).diag.deep_view() == Seq::<DiagModel>::empty(),
    {
        self.diag.clear();
        proof {
            assert(self.diag.deep_view() =~~= Seq::<DiagModel>::empty());
        }
    }

    /// Records that the operating system refused to spawn the planned
    /// pipeline; the launcher stays usable.
    pub fn report_spawn_error(&mut self, message: String)
        ensures
            final(self).editor == old(self).editor,
            final(self).cwd == old(self).cwd,
            final(self).types == old(self).types,
            final(self).diag.deep_view() == old(self).diag.deep_view().push(
                DiagModel::SpawnError { message: message@ },
            ),
    {
        let ghost mv = message@;
        self.diag.push(Diagnostic::SpawnError { message });
        proof {
            assert(self.diag.deep_view() =~~= old(self).diag.deep_view().push(
                DiagModel::SpawnError { message: mv },
            ));
        }
    }

    /// One check pass: walks the effective processes left to right and
    /// compares, at every junction, the declared output ladder of the stage
    /// before against the declared input ladder of the stage after.  The
    /// produced diagnostics are appended in pipeline-index order; the pass
    /// stops at the first mismatch.  A pipeline with no nonempty process is
    /// rejected with exactly one warning.
    pub fn typecheck(&mut self) -> (ok: bool)
        ensures
            final(self).editor == old(self).editor,
            final(self).cwd == old(self).cwd,
            final(self).types == old(self).types,
            final(self).diag.deep_view() == old(self).diag.deep_view() + spec_typecheck(
                old(self).types@,
                old(self).editor@,
            ).0,
            ok == spec_typecheck(old(self).types@, old(self).editor@).1,
    {
        let toks = self.get_strings();
        let ghost cat = self.types@;
        let ghost tv = spec_tokens(self.editor@);
        let ghost base = self.diag.deep_view();
        if toks.len() == 0 {
            self.diag.push(Diagnostic::EmptyPipeline);
            proof {
                assert(self.diag.deep_view() =~~= base + seq![DiagModel::EmptyPipeline]);
            }
            return false;
        }
        let ghost full = spec_check_from(cat, tv, 0, None);
        let ghost mut done = Seq::<DiagModel>::empty();
        let mut prev: Option<TypeLadder> = None;
        let n = toks.len();
        let mut j: usize = 0;
        proof {
            assert(base + done =~~= base);
            assert(done + full.0 =~~= full.0);
        }
        while j < n
            invariant
                n == toks.deep_view().len(),
                toks.deep_view() == tv,
                j <= n,
                self.editor == old(self).editor,
                self.cwd == old(self).cwd,
                self.types == old(self).types,
                cat == old(self).types@,
                tv == spec_tokens(old(self).editor@),
                base == old(self).diag.deep_view(),
                full == spec_check_from(cat, tv, 0, None),
                full == spec_typecheck(cat, old(self).editor@),
                self.diag.deep_view() == base + done,
                full.0 == done + spec_check_from(cat, tv, j as int, prev.deep_view()).0,
                full.1 == spec_check_from(cat, tv, j as int, prev.deep_view()).1,
            decreases n - j,
        {
            let cur = &toks[j];
            proof {
                assert(cur.deep_view() == tv[j as int]);
            }
            let inp = self.types.get_stdin_type(cur);
            let outp = self.types.get_stdout_type(cur);
            let ghost rest = spec_check_from(cat, tv, j as int, prev.deep_view());
            let ghost next = spec_stdout(cat, tv[j as int]);
            match (&prev, &inp) {
                (Some(found), Some(expected)) => {
                    let m = found.is_matching_repr(expected);
                    match m {
                        MatchResult::Matched(k) => {
                            let d = Diagnostic::LadderMatch {
                                addr: j,
                                found: found.clone(),
                                expected: expected.clone(),
                                level: k,
                            };
                            let ghost dm = d@;
                            let ghost pre = self.diag.deep_view();
                            self.diag.push(d);
                            proof {
                                assert(rest.0 == seq![dm] + spec_check_from(
                                    cat,
                                    tv,
                                    j as int + 1,
                                    next,
                                ).0);
                                assert(self.diag.deep_view() =~~= pre.push(dm));
                                assert(pre.push(dm) =~~= base + done.push(dm));
                                assert(done + (seq![dm] + spec_check_from(
                                    cat,
                                    tv,
                                    j as int + 1,
                                    next,
                                ).0) =~~= done.push(dm) + spec_check_from(
                                    cat,
                                    tv,
                                    j as int + 1,
                                    next,
                                ).0);
                                done = done.push(dm);
                            }
                        },
                        MatchResult::Mismatched(fm, fx) => {
                            let d = Diagnostic::LadderMismatch {
                                addr: j,
                                found: found.clone(),
                                expected: expected.clone(),
                                first_match: fm,
                                first_mismatch: fx,
                            };
                            let ghost dm = d@;
                            let ghost pre = self.diag.deep_view();
                            self.diag.push(d);
                            proof {
                                assert(rest == (seq![dm], false));
                                assert(self.diag.deep_view() =~~= pre.push(dm));
                                assert(pre.push(dm) =~~= base + (done + seq![dm]));
                            }
                            return false;
                        },
                        MatchResult::Unknown => {
                            let d = Diagnostic::MissingTypeInfo { addr: j };
                            let ghost dm = d@;
                            let ghost pre = self.diag.deep_view();
                            self.diag.push(d);
                            proof {
                                assert(rest.0 == seq![dm] + spec_check_from(
                                    cat,
                                    tv,
                                    j as int + 1,
                                    next,
                                ).0);
                                assert(self.diag.deep_view() =~~= pre.push(dm));
                                assert(pre.push(dm) =~~= base + done.push(dm));
                                assert(done + (seq![dm] + spec_check_from(
                                    cat,
                                    tv,
                                    j as int + 1,
                                    next,
                                ).0) =~~= done.push(dm) + spec_check_from(
                                    cat,
                                    tv,
                                    j as int + 1,
                                    next,
                                ).0);
                                done = done.push(dm);
                            }
                        },
                    }
                },
                _ => {
                    if j > 0 {
                        let d = Diagnostic::MissingTypeInfo { addr: j };
                        let ghost dm = d@;
                        let ghost pre = self.diag.deep_view();
                        self.diag.push(d);
                        proof {
                            assert(rest.0 == seq![dm] + spec_check_from(
                                cat,
                                tv,
                                j as int + 1,
                                next,
                            ).0);
                            assert(self.diag.deep_view() =~~= pre.push(dm));
                            assert(pre.push(dm) =~~= base + done.push(dm));
                            assert(done + (seq![dm] + spec_check_from(
                                cat,
                                tv,
                                j as int + 1,
                                next,
                            ).0) =~~= done.push(dm) + spec_check_from(
                                cat,
                                tv,
                                j as int + 1,
                                next,
                            ).0);
                            done = done.push(dm);
                        }
                    }
                },
            }
            prev = outp;
            j += 1;
        }
        let d = Diagnostic::CheckOk;
        let ghost dm = d@;
        let ghost pre = self.diag.deep_view();
        self.diag.push(d);
        proof {
            assert(spec_check_from(cat, tv, n as int, prev.deep_view()) == (
                seq![DiagModel::CheckOk],
                true,
            ));
            assert(self.diag.deep_view() =~~= pre.push(dm));
            assert(pre.push(dm) =~~= base + (done + seq![dm]));
        }
        true
    }

    /// Plans a run: clears the diagnostics, runs the type check, and only
    /// on success hands back the process graph to spawn.  On rejection the
    /// diagnostics of the failed pass remain visible and nothing is spawned.
    pub fn launch(&mut self) -> (plan: Option<LaunchPlan>)
        ensures
            final(self).editor == old(self).editor,
            final(self).cwd == old(self).cwd,
            final(self).types == old(self).types,
            final(self).diag.deep_view() == spec_typecheck(old(self).types@, old(self).editor@).0,
            match plan {
                Some(p) => spec_typecheck(old(self).types@, old(self).editor@).1 && p@
                    == spec_plan(spec_tokens(old(self).editor@), old(self).cwd.deep_view()),
                None => !spec_typecheck(old(self).types@, old(self).editor@).1,
            },
    {
        self.pty_reset();
        if !self.typecheck() {
            return None;
        }
        let toks = self.get_strings();
        let ghost tv = spec_tokens(self.editor@);
        proof {
            lemma_tokens_nonempty(self.editor@);
        }
        let mut execs: Vec<ExecSpec> = Vec::new();
        let n = toks.len();
        let mut i: usize = 0;
        while i < n
            invariant
                n == toks.deep_view().len(),
                toks.deep_view() == tv,
                i <= n,
                self.editor == old(self).editor,
                self.cwd == old(self).cwd,
                forall|k: int| 0 <= k < tv.len() ==> (#[trigger] tv[k]).len() > 0,
                execs.deep_view().len() == i,
                forall|k: int|
                    0 <= k < i ==> #[trigger] execs.deep_view()[k] == (ExecModel {
                        program: tv[k][0],
                        args: tv[k].drop_first(),
                        cwd: self.cwd.deep_view(),
                    }),
            decreases n - i,
        {
            let p = &toks[i];
            proof {
                assert(p.deep_view() == tv[i as int]);
            }
            let program = p[0].clone();
            let mut args: Vec<String> = Vec::new();
            let m = p.len();
            let mut k: usize = 1;
            while k < m
                invariant
                    m == p.deep_view().len(),
                    1 <= k <= m || (m == 0 && k == 1),
                    args.deep_view() == p.deep_view().subrange(1, k as int),
                decreases m - k,
            {
                let ghost pre = args.deep_view();
                args.push(p[k].clone());
                proof {
                    assert(args.deep_view() =~~= pre.push(p.deep_view()[k as int]));
                    assert(args.deep_view() =~~= p.deep_view().subrange(1, k as int + 1));
                }
                k += 1;
            }
            let cwd = match &self.cwd {
                Some(s) => Some(s.clone()),
                None => None,
            };
            let e = ExecSpec { program, args, cwd };
            proof {
                assert(e@.args =~~= tv[i as int].drop_first());
                assert(e@.cwd == self.cwd.deep_view());
            }
            let ghost pre = execs.deep_view();
            execs.push(e);
            proof {
                assert(execs.deep_view() =~~= pre.push(e@));
            }
            i += 1;
        }
        let plan = LaunchPlan { execs };
        proof {
            assert(plan@ =~~= spec_plan(tv, self.cwd.deep_view()));
        }
        Some(plan)
    }
}

/// The effective tokens are a function of the editor content alone: two
/// launchers whose editors hold the same content read out the same tokens,
/// so reading them twice with no intervening edit changes nothing.
pub proof fn lemma_get_strings_deterministic(a: &PipelineLauncher, b: &PipelineLauncher)
    requires
        a.editor@ == b.editor@,
    ensures
        spec_tokens(a.editor@) == spec_tokens(b.editor@),
{
}

/// Two launchers built over the same token content and working directory
/// plan the same process graph: the same programs with the same arguments,
/// chained in the same order.
pub proof fn lemma_launch_plans_equivalent(a: &PipelineLauncher, b: &PipelineLauncher)
    requires
        a.editor@ == b.editor@,
        a.cwd.deep_view() == b.cwd.deep_view(),
    ensures
        spec_plan(spec_tokens(a.editor@), a.cwd.deep_view()) == spec_plan(
            spec_tokens(b.editor@),
            b.cwd.deep_view(),
        ),
{
}

/// Every diagnostic of the walk from junction `j` on that carries an address
/// is addressed at junction `j` or later, and the addresses come out in
/// nondecreasing order.
pub proof fn lemma_check_addrs_ordered(
    cat: Seq<EntryModel>,
    toks: Seq<Seq<Seq<char>>>,
    j: int,
    prev: Option<Seq<TermModel>>,
)
    ensures
        ({
            let trace = spec_check_from(cat, toks, j, prev).0;
            &&& forall|i: int|
                0 <= i < trace.len() ==> match crate::diag::spec_addr(#[trigger] trace[i]) {
                    Some(a) => a >= j,
                    None => true,
                }
            &&& forall|i1: int, i2: int|
                0 <= i1 <= i2 < trace.len() ==> match (
                    crate::diag::spec_addr(#[trigger] trace[i1]),
                    crate::diag::spec_addr(#[trigger] trace[i2]),
                ) {
                    (Some(a1), Some(a2)) => a1 <= a2,
                    _ => true,
                }
        }),
    decreases toks.len() - j,
{
    if 0 <= j < toks.len() {
        let trace = spec_check_from(cat, toks, j, prev).0;
        let next = spec_stdout(cat, toks[j]);
        lemma_check_addrs_ordered(cat, toks, j + 1, next);
        let rest = spec_check_from(cat, toks, j + 1, next).0;
        match (prev, spec_stdin(cat, toks[j])) {
            (Some(found), Some(expected)) => match crate::ladder::spec_match(found, expected) {
                MatchResult::Mismatched(_, _) => {
                    // the walk stops here with a single addressed diagnostic
                },
                _ => {
                    assert(forall|i: int| 1 <= i < trace.len() ==> trace[i] == rest[i - 1]);
                },
            },
            _ => {
                if j > 0 {
                    assert(forall|i: int| 1 <= i < trace.len() ==> trace[i] == rest[i - 1]);
                }
            },
        }
    }
}

/// Within one check pass, diagnostics accumulate strictly in pipeline-index
/// order: a diagnostic addressed at a later junction never precedes one
/// addressed at an earlier junction.
pub proof fn lemma_diagnostics_in_pipeline_order(cat: Seq<EntryModel>, ed: Seq<Seq<Seq<char>>>)
    ensures
        ({
            let trace = spec_typecheck(cat, ed).0;
            forall|i1: int, i2: int|
                0 <= i1 <= i2 < trace.len() ==> match (
                    crate::diag::spec_addr(#[trigger] trace[i1]),
                    crate::diag::spec_addr(#[trigger] trace[i2]),
                ) {
                    (Some(a1), Some(a2)) => a1 <= a2,
                    _ => true,
                }
        }),
{
    if spec_tokens(ed).len() > 0 {
        lemma_check_addrs_ordered(cat, spec_tokens(ed), 0, None);
    }
}

/// A pipeline with zero or only empty process specs fails the check and
/// produces exactly one empty-pipeline warning.
pub proof fn lemma_empty_pipeline_rejected(cat: Seq<EntryModel>, ed: Seq<Seq<Seq<char>>>)
    requires
        spec_tokens(ed).len() == 0,
    ensures
        !spec_typecheck(cat, ed).1,
        spec_typecheck(cat, ed).0 == seq![DiagModel::EmptyPipeline],
{
}

} // verus!
