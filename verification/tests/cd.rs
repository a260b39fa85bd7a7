use typed_shell::command::{CmdInput, CmdResult, Command, CommandState};

fn segs(parts: &[&str]) -> Vec<String> {
    parts.iter().map(|s| s.to_string()).collect()
}

fn type_chars(cmd: &mut Command, line: &str) {
    for c in line.chars() {
        let r = cmd.send_cmd(CmdInput::Char(c));
        assert!(matches!(r, CmdResult::Continue));
    }
}

#[test]
fn textual_cwd_splits_into_components() {
    let cmd = Command::new("/home/user/src".to_string());
    assert_eq!(cmd.cwd, segs(&["home", "user", "src"]));
    assert_eq!(cmd.get_cwd_string(), "home/user/src/");
    let root = Command::new("/".to_string());
    assert_eq!(root.cwd, Vec::<String>::new());
}

#[test]
fn cd_with_parent_and_child_segment() {
    // working directory ["a","b"], input "cd ../c" → ["a","c"]
    let mut cmd = Command::from_segments(segs(&["a", "b"]));
    type_chars(&mut cmd, "cd ../c\n");
    assert_eq!(cmd.cwd, segs(&["a", "c"]));
    assert_eq!(cmd.get_cwd_string(), "a/c/");
    assert_eq!(cmd.pipeline.cwd, Some("a/c/".to_string()));
    assert!(matches!(cmd.state, CommandState::Incubator));
}

#[test]
fn cd_parent_of_empty_directory_is_a_noop() {
    // working directory [], input "cd .." → no underflow, still []
    let mut cmd = Command::from_segments(segs(&[]));
    type_chars(&mut cmd, "cd ..\n");
    assert_eq!(cmd.cwd, Vec::<String>::new());
    assert_eq!(cmd.get_cwd_string(), "");
    assert_eq!(cmd.pipeline.cwd, Some("".to_string()));
}

#[test]
fn cd_detection_consumes_the_keyword() {
    let mut cmd = Command::from_segments(segs(&[]));
    type_chars(&mut cmd, "cd ");
    assert!(matches!(cmd.state, CommandState::CD));
    // the pipeline's first slot no longer carries the keyword
    assert!(cmd.pipeline.get_strings().is_empty());
}

#[test]
fn cd_multiple_parents_pop_in_order() {
    let mut cmd = Command::from_segments(segs(&["a", "b", "c"]));
    type_chars(&mut cmd, "cd ../../d\n");
    assert_eq!(cmd.cwd, segs(&["a", "d"]));
}

#[test]
fn backspace_at_home_aborts_cd() {
    let mut cmd = Command::from_segments(segs(&["a"]));
    type_chars(&mut cmd, "cd ");
    assert!(matches!(cmd.state, CommandState::CD));
    let r = cmd.send_cmd(CmdInput::Backspace);
    assert!(matches!(r, CmdResult::Continue));
    assert!(matches!(cmd.state, CommandState::Incubator));
    // the working directory is untouched
    assert_eq!(cmd.cwd, segs(&["a"]));
}

#[test]
fn backspace_elsewhere_edits_the_path() {
    let mut cmd = Command::from_segments(segs(&[]));
    type_chars(&mut cmd, "cd xy");
    let r = cmd.send_cmd(CmdInput::Backspace);
    assert!(matches!(r, CmdResult::Continue));
    assert!(matches!(cmd.state, CommandState::CD));
    type_chars(&mut cmd, "\n");
    assert_eq!(cmd.cwd, segs(&["x"]));
}

#[test]
fn cd_resets_the_pipeline_for_the_next_command() {
    let mut cmd = Command::from_segments(segs(&[]));
    type_chars(&mut cmd, "cd lib\n");
    assert!(matches!(cmd.state, CommandState::Incubator));
    assert!(cmd.pipeline.get_strings().is_empty());
    assert!(cmd.pipeline.diag.is_empty());
}

#[test]
fn empty_path_segments_are_ignored() {
    let mut cmd = Command::from_segments(segs(&[]));
    type_chars(&mut cmd, "cd a//b/\n");
    assert_eq!(cmd.cwd, segs(&["a", "b"]));
}
