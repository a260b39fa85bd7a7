//! The command controller: the per-command state machine that decides which
//! sub-editor owns keystrokes and how input is reinterpreted.
//!
//! It starts in the incubator phase, collecting input in the pipeline editor
//! until the first completed token is recognized: a leading `cd` switches to
//! the path editor (the `cd` flow), anything else commits the command to
//! ordinary pipeline editing.  Enter in pipeline mode runs the type check
//! and, on success, hands out the process graph to spawn.

use vstd::prelude::*;

use crate::diag::DiagModel;
use crate::path::{
    apply_cd, cwd_string_of, spec_apply_cd, spec_cwd_string, spec_path_at_home,
    spec_path_backspace, spec_path_send_char, PathEditor,
};
use crate::pipeline::{
    spec_backspace, spec_clear_first, spec_plan, spec_send_char, spec_tokens, spec_typecheck,
    LaunchPlan, PipelineLauncher,
};
use crate::text::str_eq;

verus! {

/// Which sub-editor currently owns input.
#[derive(Clone, Copy, PartialEq, Eq, Structural)]
pub enum CommandState {
    /// Input collects in the pipeline editor, but the first completed token
    /// has not been committed yet.
    Incubator,
    /// A `cd` was recognized; the path editor owns input.
    CD,
    /// Ordinary pipeline editing.
    Pipeline,
}

/// One dispatched unit of input: a typed character or a backspace.
#[derive(Clone, Copy, PartialEq, Eq, Structural)]
pub enum CmdInput {
    Char(char),
    Backspace,
}

/// What one dispatch told the caller: keep feeding input, or the command is
/// consumed — carrying, when the type check passed, the planned process
/// graph to spawn.
pub enum CmdResult {
    Continue,
    Exit(Option<LaunchPlan>),
}

/// True when the first completed token of the pipeline under edit is `cd`.
pub open spec fn spec_is_cd(toks: Seq<Seq<Seq<char>>>) -> bool {
    toks.len() > 0 && toks[0].len() > 0 && toks[0][0] == "cd"@
}

/// The command controller.
pub struct Command {
    pub state: CommandState,
    pub pipeline: PipelineLauncher,
    pub path_edit: PathEditor,
    pub cwd: Vec<String>,
}

impl Command {
    /// A fresh controller in the incubator phase over an empty pipeline,
    /// with its working directory read from the given textual path: the
    /// nonempty slash-separated segments become the components.
    pub fn new(cwd: String) -> (r: Command)
        ensures
            r.state == CommandState::Incubator,
            r.pipeline.editor@ == Seq::<Seq<Seq<char>>>::empty(),
            r.pipeline.cwd is None,
            r.pipeline.diag.deep_view() == Seq::<DiagModel>::empty(),
            r.pipeline.types@.len() == 0,
            r.path_edit@ == Seq::<Seq<char>>::empty(),
            r.cwd.deep_view() == crate::pipeline::spec_nonempty_args(
                crate::path::spec_parse_path(cwd@),
            ),
    {
        let parsed = crate::path::parse_path(cwd.as_str());
        let segments = crate::pipeline::collect_args(&parsed.segments);
        Command::from_segments(segments)
    }

    /// A fresh controller in the incubator phase over an empty pipeline,
    /// with the given working-directory components.
    pub fn from_segments(cwd: Vec<String>) -> (r: Command)
        ensures
            r.state == CommandState::Incubator,
            r.pipeline.editor@ == Seq::<Seq<Seq<char>>>::empty(),
            r.pipeline.cwd is None,
            r.pipeline.diag.deep_view() == Seq::<DiagModel>::empty(),
            r.pipeline.types@.len() == 0,
            r.path_edit@ == Seq::<Seq<char>>::empty(),
            r.cwd == cwd,
    {
        Command {
            state: CommandState::Incubator,
            pipeline: PipelineLauncher::new(),
            path_edit: PathEditor::new(),
            cwd,
        }
    }

    /// The textual form of the current working directory: each component
    /// followed by one separating slash.
    pub fn get_cwd_string(&self) -> (r: String)
        ensures
            r@ == spec_cwd_string(self.cwd.deep_view()),
    {
        cwd_string_of(&self.cwd)
    }

    /// Dispatches one unit of input to whichever sub-editor owns it, taking
    /// the transitions of the controller's state machine.
    pub fn send_cmd(&mut self, input: CmdInput) -> (r: CmdResult)
        ensures
            // Incubator, space, with a leading completed `cd` token: consume
            // the token, hand input to the path editor, enter the cd flow.
            (old(self).state == CommandState::Incubator && input == CmdInput::Char(' ')
                && spec_is_cd(spec_tokens(old(self).pipeline.editor@))) ==> ({
                &&& final(self).state == CommandState::CD
                &&& final(self).pipeline.editor@ == spec_clear_first(old(self).pipeline.editor@)
                &&& final(self).pipeline.cwd == old(self).pipeline.cwd
                &&& final(self).pipeline.types == old(self).pipeline.types
                &&& final(self).pipeline.diag == old(self).pipeline.diag
                &&& final(self).path_edit@ == Seq::<Seq<char>>::empty()
                &&& final(self).cwd == old(self).cwd
                &&& r is Continue
            }),
            // Incubator, space, no leading `cd`: the space is an ordinary
            // edit and the command commits to pipeline mode.
            (old(self).state == CommandState::Incubator && input == CmdInput::Char(' ')
                && !spec_is_cd(spec_tokens(old(self).pipeline.editor@))) ==> ({
                &&& final(self).state == CommandState::Pipeline
                &&& final(self).pipeline.editor@ == spec_send_char(old(self).pipeline.editor@, ' ')
                &&& final(self).pipeline.cwd == old(self).pipeline.cwd
                &&& final(self).pipeline.types == old(self).pipeline.types
                &&& final(self).pipeline.diag == old(self).pipeline.diag
                &&& final(self).path_edit == old(self).path_edit
                &&& final(self).cwd == old(self).cwd
                &&& r is Continue
            }),
            // Incubator or Pipeline, Enter: run the check and, on success,
            // hand out the plan; the command is consumed either way.
            ((old(self).state == CommandState::Incubator || old(self).state
                == CommandState::Pipeline) && input == CmdInput::Char('\n')) ==> ({
                let chk = spec_typecheck(old(self).pipeline.types@, old(self).pipeline.editor@);
                &&& final(self).state == old(self).state
                &&& final(self).pipeline.editor@ == old(self).pipeline.editor@
                &&& final(self).pipeline.cwd == old(self).pipeline.cwd
                &&& final(self).pipeline.types == old(self).pipeline.types
                &&& final(self).pipeline.diag.deep_view() == chk.0
                &&& final(self).path_edit == old(self).path_edit
                &&& final(self).cwd == old(self).cwd
                &&& match r {
                    CmdResult::Exit(Some(p)) => chk.1 && p@ == spec_plan(
                        spec_tokens(old(self).pipeline.editor@),
                        old(self).pipeline.cwd.deep_view(),
                    ),
                    CmdResult::Exit(None) => !chk.1,
                    CmdResult::Continue => false,
                }
            }),
            // Incubator, any other character or backspace: forward to the
            // pipeline editor, no transition.
            (old(self).state == CommandState::Incubator && input != CmdInput::Char(' ') && input
                != CmdInput::Char('\n')) ==> ({
                &&& final(self).state == CommandState::Incubator
                &&& final(self).pipeline.editor@ == (match input {
                    CmdInput::Char(c) => spec_send_char(old(self).pipeline.editor@, c),
                    CmdInput::Backspace => spec_backspace(old(self).pipeline.editor@),
                })
                &&& final(self).pipeline.cwd == old(self).pipeline.cwd
                &&& final(self).pipeline.types == old(self).pipeline.types
                &&& final(self).pipeline.diag == old(self).pipeline.diag
                &&& final(self).path_edit == old(self).path_edit
                &&& final(self).cwd == old(self).cwd
                &&& r is Continue
            }),
            // CD, backspace at the path editor's home: abort the cd flow and
            // reopen the incubator on the prior command slot.
            (old(self).state == CommandState::CD && input == CmdInput::Backspace
                && spec_path_at_home(old(self).path_edit@)) ==> ({
                &&& final(self).state == CommandState::Incubator
                &&& final(self).pipeline == old(self).pipeline
                &&& final(self).path_edit@ == Seq::<Seq<char>>::empty()
                &&& final(self).cwd == old(self).cwd
                &&& r is Continue
            }),
            // CD, backspace elsewhere: forward to the path editor.
            (old(self).state == CommandState::CD && input == CmdInput::Backspace
                && !spec_path_at_home(old(self).path_edit@)) ==> ({
                &&& final(self).state == CommandState::CD
                &&& final(self).pipeline == old(self).pipeline
                &&& final(self).path_edit@ == spec_path_backspace(old(self).path_edit@)
                &&& final(self).cwd == old(self).cwd
                &&& r is Continue
            }),
            // CD, Enter: commit the typed path to the working directory
            // (`..` pops without underflow, other nonempty segments push),
            // configure and reset the pipeline, return to the incubator.
            (old(self).state == CommandState::CD && input == CmdInput::Char('\n')) ==> ({
                let wd2 = spec_apply_cd(old(self).cwd.deep_view(), old(self).path_edit@);
                &&& final(self).state == CommandState::Incubator
                &&& final(self).cwd.deep_view() == wd2
                &&& final(self).path_edit@ == Seq::<Seq<char>>::empty()
                &&& final(self).pipeline.editor@ == Seq::<Seq<Seq<char>>>::empty()
                &&& final(self).pipeline.diag.deep_view() == Seq::<DiagModel>::empty()
                &&& final(self).pipeline.types == old(self).pipeline.types
                &&& match final(self).pipeline.cwd {
                    Some(s) => s@ == spec_cwd_string(wd2),
                    None => false,
                }
                &&& r is Continue
            }),
            // CD, any other character: forward to the path editor.
            (old(self).state == CommandState::CD && input != CmdInput::Backspace && input
                != CmdInput::Char('\n')) ==> ({
                &&& final(self).state == CommandState::CD
                &&& final(self).pipeline == old(self).pipeline
                &&& final(self).path_edit@ == (match input {
                    CmdInput::Char(c) => spec_path_send_char(old(self).path_edit@, c),
                    CmdInput::Backspace => old(self).path_edit@,
                })
                &&& final(self).cwd == old(self).cwd
                &&& r is Continue
            }),
            // Pipeline, anything but Enter: forward to the pipeline editor;
            // an edit that empties the process list reopens the incubator.
            (old(self).state == CommandState::Pipeline && input != CmdInput::Char('\n')) ==> ({
                let ed2 = match input {
                    CmdInput::Char(c) => spec_send_char(old(self).pipeline.editor@, c),
                    CmdInput::Backspace => spec_backspace(old(self).pipeline.editor@),
                };
                &&& final(self).state == (if ed2.len() == 0 {
                    CommandState::Incubator
                } else {
                    CommandState::Pipeline
                })
                &&& final(self).pipeline.editor@ == ed2
                &&& final(self).pipeline.cwd == old(self).pipeline.cwd
                &&& final(self).pipeline.types == old(self).pipeline.types
                &&& final(self).pipeline.diag == old(self).pipeline.diag
                &&& final(self).path_edit == old(self).path_edit
                &&& final(self).cwd == old(self).cwd
                &&& r is Continue
            }),
    {
        match self.state {
            CommandState::Incubator => {
                match input {
                    CmdInput::Char(' ') => {
                        let toks = self.pipeline.get_strings();
                        let mut cd_cmd = false;
                        if toks.len() > 0 {
                            if toks[0].len() > 0 {
                                if str_eq(toks[0][0].as_str(), "cd") {
                                    cd_cmd = true;
                                }
                            }
                        }
                        if cd_cmd {
                            self.pipeline.editor.clear_first_slot();
                            self.path_edit.clear();
                            self.state = CommandState::CD;
                        } else {
                            self.pipeline.editor.send_char(' ');
                            self.state = CommandState::Pipeline;
                        }
                        CmdResult::Continue
                    },
                    CmdInput::Char('\n') => {
                        let plan = self.pipeline.launch();
                        CmdResult::Exit(plan)
                    },
                    CmdInput::Char(c) => {
                        self.pipeline.editor.send_char(c);
                        CmdResult::Continue
                    },
                    CmdInput::Backspace => {
                        self.pipeline.editor.backspace();
                        CmdResult::Continue
                    },
                }
            },
            CommandState::CD => {
                match input {
                    CmdInput::Backspace => {
                        if self.path_edit.at_home() {
                            self.path_edit.clear();
                            self.state = CommandState::Incubator;
                        } else {
                            self.path_edit.backspace();
                        }
                        CmdResult::Continue
                    },
                    CmdInput::Char('\n') => {
                        apply_cd(&mut self.cwd, &self.path_edit.segments);
                        self.path_edit.clear();
                        let s = cwd_string_of(&self.cwd);
                        self.pipeline.cwd = Some(s);
                        self.pipeline.pty_reset();
                        self.pipeline.editor.clear();
                        self.state = CommandState::Incubator;
                        CmdResult::Continue
                    },
                    CmdInput::Char(c) => {
                        self.path_edit.send_char(c);
                        CmdResult::Continue
                    },
                }
            },
            CommandState::Pipeline => {
                match input {
                    CmdInput::Char('\n') => {
                        let plan = self.pipeline.launch();
                        CmdResult::Exit(plan)
                    },
                    CmdInput::Char(c) => {
                        self.pipeline.editor.send_char(c);
                        if self.pipeline.editor.process_count() == 0 {
                            self.state = CommandState::Incubator;
                        }
                        CmdResult::Continue
                    },
                    CmdInput::Backspace => {
                        self.pipeline.editor.backspace();
                        if self.pipeline.editor.process_count() == 0 {
                            self.state = CommandState::Incubator;
                        }
                        CmdResult::Continue
                    },
                }
            },
        }
    }
}

} // verus!
