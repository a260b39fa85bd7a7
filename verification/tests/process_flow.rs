use typed_shell::process::{NavResult, ProcAction, ProcessLauncher};
use typed_shell::pty::{PtyInput, PTYStatus};

fn type_chars(p: &mut ProcessLauncher, line: &str) {
    for c in line.chars() {
        let (nav, act) = p.send_cmd(PTYStatus::default(), &PtyInput::Char(c));
        assert!(matches!(nav, NavResult::Continue));
        assert!(matches!(act, ProcAction::Idle));
    }
}

#[test]
fn enter_asks_to_spawn_the_edited_command() {
    let mut p = ProcessLauncher::new();
    type_chars(&mut p, "htop -d 10");
    let (nav, act) = p.send_cmd(PTYStatus::default(), &PtyInput::Char('\n'));
    assert!(matches!(nav, NavResult::Continue));
    match act {
        ProcAction::Spawn(l) => {
            assert_eq!(l.program, "htop");
            assert_eq!(l.args, vec!["-d".to_string(), "10".to_string()]);
        }
        _ => panic!("expected a spawn request"),
    }
}

#[test]
fn enter_on_an_empty_command_spawns_nothing() {
    let mut p = ProcessLauncher::new();
    let (_, act) = p.send_cmd(PTYStatus::default(), &PtyInput::Char('\n'));
    assert!(matches!(act, ProcAction::Idle));
}

#[test]
fn captured_session_receives_the_keystrokes() {
    let mut p = ProcessLauncher::new();
    p.attach(42);
    assert!(p.is_captured());
    let (nav, act) = p.send_cmd(PTYStatus::Running { pid: 42 }, &PtyInput::Char('q'));
    assert!(matches!(nav, NavResult::Continue));
    match act {
        ProcAction::WriteBytes(b) => assert_eq!(b, vec![b'q']),
        _ => panic!("expected bytes for the child"),
    }
}

#[test]
fn ctrl_c_kills_and_releases() {
    let mut p = ProcessLauncher::new();
    p.attach(42);
    let (nav, act) = p.send_cmd(PTYStatus::Running { pid: 42 }, &PtyInput::Ctrl('c'));
    assert!(matches!(nav, NavResult::Exit));
    assert!(matches!(act, ProcAction::KillChild));
    assert!(!p.is_captured());
    assert!(p.pty.is_none());
}

#[test]
fn ctrl_c_without_a_session_kills_nothing() {
    let mut p = ProcessLauncher::new();
    let (nav, act) = p.send_cmd(PTYStatus::default(), &PtyInput::Ctrl('c'));
    assert!(matches!(nav, NavResult::Exit));
    assert!(matches!(act, ProcAction::Idle));
}

#[test]
fn ctrl_z_suspends_without_killing() {
    let mut p = ProcessLauncher::new();
    p.attach(42);
    let (nav, act) = p.send_cmd(PTYStatus::Running { pid: 42 }, &PtyInput::Ctrl('z'));
    assert!(matches!(nav, NavResult::Exit));
    assert!(matches!(act, ProcAction::Idle));
    // the child lives on, but capture is released
    assert!(p.pty.is_some());
    assert!(p.suspended);
    assert!(!p.is_captured());
}

#[test]
fn suspended_session_keeps_keystrokes_in_the_editor() {
    let mut p = ProcessLauncher::new();
    p.attach(42);
    p.send_cmd(PTYStatus::Running { pid: 42 }, &PtyInput::Ctrl('z'));
    let (_, act) = p.send_cmd(PTYStatus::Running { pid: 42 }, &PtyInput::Char('x'));
    assert!(matches!(act, ProcAction::Idle));
}

#[test]
fn observed_exit_releases_before_the_input_is_processed() {
    let mut p = ProcessLauncher::new();
    p.attach(42);
    let (nav, act) = p.send_cmd(PTYStatus::Done { status: 0 }, &PtyInput::Char('x'));
    assert!(matches!(nav, NavResult::Continue));
    // the keystroke went to the editor, not to the finished child
    assert!(matches!(act, ProcAction::Idle));
    assert!(p.pty.is_none());
    assert!(!p.suspended);
}

#[test]
fn attach_restores_capture() {
    let mut p = ProcessLauncher::new();
    p.attach(7);
    assert!(p.is_captured());
    assert_eq!(p.pty, Some(PTYStatus::Running { pid: 7 }));
}
