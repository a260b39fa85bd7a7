use typed_shell::pipeline::PipelineLauncher;

fn type_line(l: &mut PipelineLauncher, line: &str) {
    for c in line.chars() {
        l.editor.send_char(c);
    }
}

#[test]
fn get_strings_drops_empty_arguments_and_processes() {
    let mut l = PipelineLauncher::new();
    type_line(&mut l, "ls  -l| |wc");
    let toks = l.get_strings();
    assert_eq!(
        toks,
        vec![vec!["ls".to_string(), "-l".to_string()], vec!["wc".to_string()]]
    );
}

#[test]
fn get_strings_twice_is_identical() {
    let mut l = PipelineLauncher::new();
    type_line(&mut l, "find src|wc -l");
    let a = l.get_strings();
    let b = l.get_strings();
    assert_eq!(a, b);
}

#[test]
fn editor_backspace_undoes_typing() {
    let mut l = PipelineLauncher::new();
    type_line(&mut l, "ab|c");
    l.editor.backspace(); // 'c'
    l.editor.backspace(); // the emptied second process slot
    assert_eq!(l.get_strings(), vec![vec!["ab".to_string()]]);
    l.editor.backspace(); // 'b'
    l.editor.backspace(); // 'a'
    assert_eq!(l.get_strings(), Vec::<Vec<String>>::new());
}

#[test]
fn equal_editors_and_cwd_plan_equal_process_graphs() {
    let mut a = PipelineLauncher::new();
    let mut b = PipelineLauncher::new();
    type_line(&mut a, "find src|wc -l");
    type_line(&mut b, "find src|wc -l");
    a.cwd = Some("/tmp/".to_string());
    b.cwd = Some("/tmp/".to_string());
    let pa = a.launch().expect("plan");
    let pb = b.launch().expect("plan");
    assert_eq!(pa.execs.len(), pb.execs.len());
    for (ea, eb) in pa.execs.iter().zip(pb.execs.iter()) {
        assert_eq!(ea.program, eb.program);
        assert_eq!(ea.args, eb.args);
        assert_eq!(ea.cwd, eb.cwd);
    }
    // the chain order is the token order
    assert_eq!(pa.execs[0].program, "find");
    assert_eq!(pa.execs[1].program, "wc");
    assert_eq!(pa.execs[0].cwd, Some("/tmp/".to_string()));
}
