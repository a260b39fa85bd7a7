//! The launcher of one interactive foreground process: a command under
//! edit, an optional captured pseudo-terminal session, and the dispatch that
//! decides, for each unit of input, what the runtime must do — write bytes
//! to the child, spawn it, kill it, or keep the keystroke for the editor.

use vstd::prelude::*;

use crate::path::{spec_seg_backspace, spec_seg_send_char};
use crate::pipeline::spec_nonempty_args;
use crate::pty::{handle_terminal_event, spec_event_bytes, PtyInput, PtyResponse, PTYStatus};

verus! {

/// Whether the dispatched input keeps the controller engaged or releases it.
#[derive(Clone, Copy, PartialEq, Eq, Structural)]
pub enum NavResult {
    Continue,
    Exit,
}

/// The single interactive command the runtime is asked to spawn on a fresh
/// pseudo-terminal.
pub struct PtyLaunch {
    pub program: String,
    pub args: Vec<String>,
}

/// What the runtime must carry out after one dispatch.
pub enum ProcAction {
    /// Nothing outside the library changes.
    Idle,
    /// Send the kill signal to the captured child.
    KillChild,
    /// Write these bytes to the terminal master of the captured child.
    WriteBytes(Vec<u8>),
    /// Allocate a pseudo-terminal and spawn this command on it; report a
    /// successful spawn back through [`ProcessLauncher::attach`].
    Spawn(PtyLaunch),
}

/// The command under edit: an ordered list of argument slots, each a list of
/// characters; a space starts a new slot.
pub struct ProcessEditor {
    pub args: Vec<Vec<char>>,
}

impl View for ProcessEditor {
    type V = Seq<Seq<char>>;

    open spec fn view(&self) -> Seq<Seq<char>> {
        self.args.deep_view()
    }
}

impl ProcessEditor {
    /// A fresh, empty command editor.
    pub fn new() -> (r: ProcessEditor)
        ensures
            r@ == Seq::<Seq<char>>::empty(),
    {
        let r = ProcessEditor { args: Vec::new() };
        proof {
            assert(r@ =~~= Seq::<Seq<char>>::empty());
        }
        r
    }

    /// Routes one typed character into the editor.
    pub fn send_char(&mut self, c: char)
        ensures
            final(self)@ == spec_seg_send_char(old(self)@, ' ', c),
    {
        if self.args.len() == 0 {
            self.args.push(Vec::new());
            proof {
                assert(self@ =~~= seq![Seq::<char>::empty()]);
            }
        }
        let ghost ens = self@;
        let n = self.args.len();
        if c == ' ' {
            self.args.push(Vec::new());
            proof {
                assert(self@ =~~= ens.push(Seq::<char>::empty()));
            }
        } else {
            self.args[n - 1].push(c);
            proof {
                assert(self@ =~~= ens.update(ens.len() - 1, ens.last().push(c)));
            }
        }
    }

    /// Removes the last character, or the argument slot it would have been in.
    pub fn backspace(&mut self)
        ensures
            final(self)@ == spec_seg_backspace(old(self)@),
    {
        let n = self.args.len();
        if n == 0 {
            return ;
        }
        if self.args[n - 1].len() > 0 {
            self.args[n - 1].pop();
            proof {
                assert(self@ =~~= old(self)@.update(
                    old(self)@.len() - 1,
                    old(self)@.last().drop_last(),
                ));
            }
        } else {
            self.args.pop();
            proof {
                assert(self@ =~~= old(self)@.drop_last());
            }
        }
    }
}

/// The session state left after the release-on-exit rule: a `Done` status
/// observed on dispatch releases the session before the input is processed.
pub open spec fn spec_after_release(
    pty: Option<PTYStatus>,
    suspended: bool,
    observed: PTYStatus,
) -> (Option<PTYStatus>, bool) {
    if observed is Done {
        (None, false)
    } else {
        (pty, suspended)
    }
}

/// The launcher of one interactive process.
pub struct ProcessLauncher {
    pub cmd_editor: ProcessEditor,
    /// The session, when one exists, with the status it was spawned or last
    /// observed in.
    pub pty: Option<PTYStatus>,
    /// Set by a suspend keystroke: the child keeps running but keystrokes
    /// return to the structural editor.
    pub suspended: bool,
}

impl ProcessLauncher {
    /// A launcher with an empty command and no session.
    pub fn new() -> (r: ProcessLauncher)
        ensures
            r.cmd_editor@ == Seq::<Seq<char>>::empty(),
            r.pty is None,
            !r.suspended,
    {
        ProcessLauncher { cmd_editor: ProcessEditor::new(), pty: None, suspended: false }
    }

    /// True while keystrokes are captured by the child: a session exists and
    /// has not been suspended.
    pub fn is_captured(&self) -> (r: bool)
        ensures
            r == (self.pty is Some && !self.suspended),
    {
        self.pty.is_some() && !self.suspended
    }

    /// Records a successful spawn reported by the runtime.
    pub fn attach(&mut self, pid: u32)
        ensures
            final(self).cmd_editor == old(self).cmd_editor,
            final(self).pty == Some(PTYStatus::Running { pid }),
            !final(self).suspended,
    {
        self.pty = Some(PTYStatus::Running { pid });
        self.suspended = false;
    }

    /// Reads the command under edit and, when it has at least one token,
    /// hands back what to spawn; the session itself begins only when the
    /// runtime reports the spawn through [`ProcessLauncher::attach`].
    pub fn launch_pty(&self) -> (cmd: Option<PtyLaunch>)
        ensures
            ({
                let toks = spec_nonempty_args(self.cmd_editor@);
                match cmd {
                    Some(l) => toks.len() > 0 && l.program@ == toks[0] && l.args.deep_view()
                        == toks.drop_first(),
                    None => toks.len() == 0,
                }
            }),
    {
        let toks = crate::pipeline::collect_args(&self.cmd_editor.args);
        if toks.len() == 0 {
            return None;
        }
        let program = toks[0].clone();
        let mut args: Vec<String> = Vec::new();
        let m = toks.len();
        let mut k: usize = 1;
        while k < m
            invariant
                m == toks.deep_view().len(),
                1 <= k <= m,
                args.deep_view() == toks.deep_view().subrange(1, k as int),
            decreases m - k,
        {
            let ghost pre = args.deep_view();
            args.push(toks[k].clone());
            proof {
                assert(args.deep_view() =~~= pre.push(toks.deep_view()[k as int]));
                assert(args.deep_view() =~~= toks.deep_view().subrange(1, k as int + 1));
            }
            k += 1;
        }
        proof {
            assert(args.deep_view() =~~= spec_nonempty_args(self.cmd_editor@).drop_first());
        }
        Some(PtyLaunch { program, args })
    }

    /// Dispatches one unit of input, given the status the runtime's poll
    /// worker currently shows for the session.  An observed `Done` releases
    /// the session before the input is processed; Ctrl-C kills the child and
    /// releases capture; Ctrl-Z suspends capture without killing; while a
    /// live session is captured, input is translated to bytes for the child;
    /// otherwise Enter asks for a spawn and other input edits the command.
    pub fn send_cmd(&mut self, observed: PTYStatus, ev: &PtyInput) -> (r: (NavResult, ProcAction))
        ensures
            ({
                let released = spec_after_release(old(self).pty, old(self).suspended, observed);
                let pty0 = released.0;
                let susp0 = released.1;
                if *ev == (PtyInput::Ctrl('c')) {
                    &&& final(self).pty is None
                    &&& !final(self).suspended
                    &&& final(self).cmd_editor == old(self).cmd_editor
                    &&& r.0 == NavResult::Exit
                    &&& (pty0 is Some ==> r.1 is KillChild)
                    &&& (pty0 is None ==> r.1 is Idle)
                } else if *ev == (PtyInput::Ctrl('z')) {
                    &&& final(self).pty == pty0
                    &&& final(self).suspended
                    &&& final(self).cmd_editor == old(self).cmd_editor
                    &&& r.0 == NavResult::Exit
                    &&& r.1 is Idle
                } else if pty0 is Some && !susp0 {
                    &&& final(self).pty == pty0
                    &&& final(self).suspended == susp0
                    &&& final(self).cmd_editor == old(self).cmd_editor
                    &&& r.0 == NavResult::Continue
                    &&& match spec_event_bytes(*ev) {
                        Some(bs) => match r.1 {
                            ProcAction::WriteBytes(b) => b@ == bs,
                            _ => false,
                        },
                        None => r.1 is Idle,
                    }
                } else if *ev == (PtyInput::Char('\n')) {
                    let toks = spec_nonempty_args(old(self).cmd_editor@);
                    &&& final(self).pty == pty0
                    &&& final(self).suspended == susp0
                    &&& final(self).cmd_editor == old(self).cmd_editor
                    &&& r.0 == NavResult::Continue
                    &&& (toks.len() > 0 ==> match r.1 {
                        ProcAction::Spawn(l) => l.program@ == toks[0] && l.args.deep_view()
                            == toks.drop_first(),
                        _ => false,
                    })
                    &&& (toks.len() == 0 ==> r.1 is Idle)
                } else {
                    &&& final(self).pty == pty0
                    &&& final(self).suspended == susp0
                    &&& final(self).cmd_editor@ == (match *ev {
                        PtyInput::Char(c) => spec_seg_send_char(old(self).cmd_editor@, ' ', c),
                        PtyInput::Backspace => spec_seg_backspace(old(self).cmd_editor@),
                        _ => old(self).cmd_editor@,
                    })
                    &&& r.0 == NavResult::Continue
                    &&& r.1 is Idle
                }
            }),
    {
        if observed.is_done() {
            self.pty = None;
            self.suspended = false;
        }
        match ev {
            PtyInput::Ctrl(c) if *c == 'c' => {
                let had = self.pty.is_some();
                self.pty = None;
                self.suspended = false;
                if had {
                    (NavResult::Exit, ProcAction::KillChild)
                } else {
                    (NavResult::Exit, ProcAction::Idle)
                }
            },
            PtyInput::Ctrl(c) if *c == 'z' => {
                self.suspended = true;
                (NavResult::Exit, ProcAction::Idle)
            },
            _ => {
                if self.pty.is_some() && !self.suspended {
                    match handle_terminal_event(ev) {
                        PtyResponse::Write(b) => (NavResult::Continue, ProcAction::WriteBytes(b)),
                        PtyResponse::Exit => (NavResult::Continue, ProcAction::Idle),
                    }
                } else {
                    match ev {
                        PtyInput::Char(c) => {
                            if *c == '\n' {
                                match self.launch_pty() {
                                    Some(l) => (NavResult::Continue, ProcAction::Spawn(l)),
                                    None => (NavResult::Continue, ProcAction::Idle),
                                }
                            } else {
                                self.cmd_editor.send_char(*c);
                                (NavResult::Continue, ProcAction::Idle)
                            }
                        },
                        PtyInput::Backspace => {
                            self.cmd_editor.backspace();
                            (NavResult::Continue, ProcAction::Idle)
                        },
                        _ => (NavResult::Continue, ProcAction::Idle),
                    }
                }
            },
        }
    }
}

impl PTYStatus {
    /// True once the child has exited.
    pub fn is_done(&self) -> (r: bool)
        ensures
            r == (*self is Done),
    {
        match self {
            PTYStatus::Done { .. } => true,
            PTYStatus::Running { .. } => false,
        }
    }
}

} // verus!
