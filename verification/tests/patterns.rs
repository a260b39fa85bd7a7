use typed_shell::command_pattern::{
    CommandPattern, IEEEArgPattern, IEEEArgPatternAtom, IEEEArgs,
};

fn strings(parts: &[&str]) -> Vec<String> {
    parts.iter().map(|s| s.to_string()).collect()
}

#[test]
fn get_option_finds_the_named_group() {
    let args = IEEEArgs {
        options: vec![strings(&["-d", "10"]), strings(&["-u"])],
        operands: strings(&["file"]),
    };
    assert_eq!(args.get_option("-d".to_string()), strings(&["-d", "10"]));
    assert_eq!(args.get_option("-u".to_string()), strings(&["-u"]));
}

#[test]
fn get_option_absent_is_empty() {
    let args = IEEEArgs { options: vec![strings(&["-d", "10"])], operands: vec![] };
    assert_eq!(args.get_option("-x".to_string()), Vec::<String>::new());
}

#[test]
fn get_option_takes_the_first_of_equal_names() {
    let args = IEEEArgs {
        options: vec![strings(&["-d", "10"]), strings(&["-d", "20"])],
        operands: vec![],
    };
    assert_eq!(args.get_option("-d".to_string()), strings(&["-d", "10"]));
}

#[test]
fn ieee_pattern_binds_variables_to_their_tokens() {
    let p = CommandPattern::IEEE(IEEEArgPattern {
        option: vec![
            IEEEArgPatternAtom::Lit("-n".to_string()),
            IEEEArgPatternAtom::Var("count".to_string()),
        ],
        operands: vec![IEEEArgPatternAtom::Var("file".to_string())],
    });
    let s = p
        .match_pattern(strings(&["-n", "10", "log.txt"]))
        .expect("the pattern matches");
    assert_eq!(s.0.len(), 2);
    assert_eq!(s.0[0].0, "count");
    assert_eq!(s.0[0].1.id, "10");
    assert_eq!(s.0[1].0, "file");
    assert_eq!(s.0[1].1.id, "log.txt");
}

#[test]
fn ieee_pattern_refuses_wrong_literal_or_length() {
    let p = CommandPattern::IEEE(IEEEArgPattern {
        option: vec![IEEEArgPatternAtom::Lit("-n".to_string())],
        operands: vec![],
    });
    assert!(p.match_pattern(strings(&["-c"])).is_none());
    assert!(p.match_pattern(strings(&["-n", "extra"])).is_none());
    assert!(p.match_pattern(strings(&[])).is_none());
}

#[test]
fn ieee_pattern_of_only_literals_binds_nothing() {
    let p = CommandPattern::IEEE(IEEEArgPattern {
        option: vec![IEEEArgPatternAtom::Lit("-l".to_string())],
        operands: vec![IEEEArgPatternAtom::Lit("src".to_string())],
    });
    let s = p.match_pattern(strings(&["-l", "src"])).expect("matches");
    assert!(s.0.is_empty());
}

#[test]
fn regexp_patterns_are_not_resolved_here() {
    let p = CommandPattern::RegExp("wc .*".to_string());
    assert!(p.match_pattern(strings(&["wc", "-l"])).is_none());
}
