use typed_shell::diag::{Diagnostic, Level};
use typed_shell::ladder::{TypeLadder, TypeTerm};
use typed_shell::pipeline::PipelineLauncher;
use typed_shell::process_types::PipeTypes;

fn ladder(ids: &[&str]) -> TypeLadder {
    let mut terms = Vec::new();
    for id in ids {
        terms.push(TypeTerm::new(id.to_string()));
    }
    TypeLadder::new(terms)
}

fn tokens(cmd: &[&str]) -> Vec<String> {
    cmd.iter().map(|s| s.to_string()).collect()
}

fn type_line(l: &mut PipelineLauncher, line: &str) {
    for c in line.chars() {
        l.editor.send_char(c);
    }
}

#[test]
fn empty_pipeline_is_rejected_with_one_warn() {
    let mut l = PipelineLauncher::new();
    assert!(!l.typecheck());
    assert_eq!(l.diag.len(), 1);
    assert!(matches!(l.diag[0], Diagnostic::EmptyPipeline));
    assert!(matches!(l.diag[0].level(), Level::Warn));
    assert!(l.diag[0].addr().is_none());
}

#[test]
fn all_empty_specs_count_as_empty_pipeline() {
    let mut l = PipelineLauncher::new();
    // only separators: every argument slot stays empty
    type_line(&mut l, "  |  | ");
    assert!(!l.typecheck());
    assert_eq!(l.diag.len(), 1);
    assert!(matches!(l.diag[0], Diagnostic::EmptyPipeline));
}

#[test]
fn single_step_without_catalog_entry_is_permissive() {
    let mut l = PipelineLauncher::new();
    type_line(&mut l, "wc -l");
    assert!(l.typecheck());
    assert_eq!(l.diag.len(), 1);
    assert!(matches!(l.diag[0], Diagnostic::CheckOk));
    // and a run proceeds to a one-stage spawn plan
    let plan = l.launch().expect("launch should produce a plan");
    assert_eq!(plan.execs.len(), 1);
    assert_eq!(plan.execs[0].program, "wc");
    assert_eq!(plan.execs[0].args, vec!["-l".to_string()]);
}

#[test]
fn overlapping_ladders_give_one_info_with_level() {
    let mut l = PipelineLauncher::new();
    l.types.declare(
        tokens(&["find", "src"]),
        PipeTypes { stdin_type: None, stdout_type: Some(ladder(&["Bytes", "Lines", "FileNames"])) },
    );
    l.types.declare(
        tokens(&["wc", "-l"]),
        PipeTypes { stdin_type: Some(ladder(&["Bytes", "Lines"])), stdout_type: None },
    );
    type_line(&mut l, "find src|wc -l");
    assert!(l.typecheck());
    let matches_info: Vec<&Diagnostic> = l
        .diag
        .iter()
        .filter(|d| matches!(d, Diagnostic::LadderMatch { .. }))
        .collect();
    assert_eq!(matches_info.len(), 1);
    match matches_info[0] {
        Diagnostic::LadderMatch { addr, level, .. } => {
            assert_eq!(*addr, 1);
            assert_eq!(*level, 2);
        }
        _ => unreachable!(),
    }
    assert!(matches!(l.diag.last().unwrap(), Diagnostic::CheckOk));
}

#[test]
fn disjoint_ladders_fail_fast_with_one_error_at_index_one() {
    let mut l = PipelineLauncher::new();
    l.types.declare(
        tokens(&["date", "+%s"]),
        PipeTypes { stdin_type: None, stdout_type: Some(ladder(&["UnixTime"])) },
    );
    l.types.declare(
        tokens(&["sort", "-n"]),
        PipeTypes { stdin_type: Some(ladder(&["Lines"])), stdout_type: None },
    );
    type_line(&mut l, "date +%s|sort -n");
    assert!(!l.typecheck());
    let errors: Vec<&Diagnostic> = l
        .diag
        .iter()
        .filter(|d| matches!(d.level(), Level::Error))
        .collect();
    assert_eq!(errors.len(), 1);
    assert_eq!(errors[0].addr(), Some(1));
    match errors[0] {
        Diagnostic::LadderMismatch { first_match, first_mismatch, .. } => {
            assert_eq!(*first_match, 0);
            assert_eq!(*first_mismatch, 0);
        }
        _ => panic!("expected a ladder mismatch"),
    }
    // a rejected pipeline is never launched
    assert!(l.launch().is_none());
}

#[test]
fn missing_typeinfo_warns_and_continues() {
    let mut l = PipelineLauncher::new();
    // neither stage declares anything: the junction warns, the pass succeeds
    type_line(&mut l, "cat x|wc -l");
    assert!(l.typecheck());
    assert_eq!(l.diag.len(), 2);
    assert!(matches!(l.diag[0], Diagnostic::MissingTypeInfo { addr: 1 }));
    assert!(matches!(l.diag[0].level(), Level::Warn));
    assert!(matches!(l.diag[1], Diagnostic::CheckOk));
}

#[test]
fn declared_empty_ladder_is_permissive_not_error() {
    let mut l = PipelineLauncher::new();
    l.types.declare(
        tokens(&["a"]),
        PipeTypes { stdin_type: None, stdout_type: Some(ladder(&[])) },
    );
    l.types.declare(
        tokens(&["b"]),
        PipeTypes { stdin_type: Some(ladder(&["Lines"])), stdout_type: None },
    );
    type_line(&mut l, "a|b");
    assert!(l.typecheck());
    assert!(matches!(l.diag[0], Diagnostic::MissingTypeInfo { addr: 1 }));
}

#[test]
fn diagnostics_accumulate_and_reset_clears() {
    let mut l = PipelineLauncher::new();
    assert!(!l.typecheck());
    assert!(!l.typecheck());
    assert_eq!(l.diag.len(), 2);
    l.pty_reset();
    assert!(l.diag.is_empty());
}

#[test]
fn spawn_error_is_reported_as_error_diagnostic() {
    let mut l = PipelineLauncher::new();
    l.report_spawn_error("no such file".to_string());
    assert_eq!(l.diag.len(), 1);
    assert!(matches!(l.diag[0].level(), Level::Error));
    assert_eq!(l.diag[0].render(), "error spawning pipeline: no such file");
}
