use typed_shell::command::{CmdInput, CmdResult, Command, CommandState};

fn type_chars(cmd: &mut Command, line: &str) {
    for c in line.chars() {
        let r = cmd.send_cmd(CmdInput::Char(c));
        assert!(matches!(r, CmdResult::Continue));
    }
}

#[test]
fn ordinary_first_token_commits_to_pipeline_mode() {
    let mut cmd = Command::from_segments(vec![]);
    type_chars(&mut cmd, "ls ");
    assert!(matches!(cmd.state, CommandState::Pipeline));
    assert_eq!(cmd.pipeline.get_strings(), vec![vec!["ls".to_string()]]);
}

#[test]
fn emptying_the_pipeline_returns_to_the_incubator() {
    let mut cmd = Command::from_segments(vec![]);
    type_chars(&mut cmd, "a ");
    assert!(matches!(cmd.state, CommandState::Pipeline));
    // delete the trailing empty slot, then 'a', then the process itself
    cmd.send_cmd(CmdInput::Backspace);
    cmd.send_cmd(CmdInput::Backspace);
    cmd.send_cmd(CmdInput::Backspace);
    assert!(matches!(cmd.state, CommandState::Incubator));
}

#[test]
fn enter_consumes_the_command_and_hands_out_a_plan() {
    let mut cmd = Command::from_segments(vec![]);
    type_chars(&mut cmd, "echo hi");
    let r = cmd.send_cmd(CmdInput::Char('\n'));
    match r {
        CmdResult::Exit(Some(plan)) => {
            assert_eq!(plan.execs.len(), 1);
            assert_eq!(plan.execs[0].program, "echo");
            assert_eq!(plan.execs[0].args, vec!["hi".to_string()]);
            assert_eq!(plan.execs[0].cwd, None);
        }
        _ => panic!("expected a consumed command with a plan"),
    }
}

#[test]
fn enter_on_an_empty_pipeline_is_consumed_without_a_plan() {
    let mut cmd = Command::from_segments(vec![]);
    let r = cmd.send_cmd(CmdInput::Char('\n'));
    assert!(matches!(r, CmdResult::Exit(None)));
    assert_eq!(cmd.pipeline.diag.len(), 1);
}

#[test]
fn cd_inside_a_longer_word_is_not_a_keyword() {
    let mut cmd = Command::from_segments(vec![]);
    type_chars(&mut cmd, "cdx ");
    assert!(matches!(cmd.state, CommandState::Pipeline));
}

#[test]
fn launch_applies_the_configured_working_directory() {
    let mut cmd = Command::from_segments(vec!["tmp".to_string()]);
    type_chars(&mut cmd, "cd logs\n");
    type_chars(&mut cmd, "ls");
    let r = cmd.send_cmd(CmdInput::Char('\n'));
    match r {
        CmdResult::Exit(Some(plan)) => {
            assert_eq!(plan.execs[0].cwd, Some("tmp/logs/".to_string()));
        }
        _ => panic!("expected a plan"),
    }
}
