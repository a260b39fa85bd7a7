use typed_shell::diag::{render_ladder, render_term, Diagnostic, Level};
use typed_shell::ladder::{TypeLadder, TypeTerm};
use typed_shell::text::fmt_usize;

fn ladder(ids: &[&str]) -> TypeLadder {
    let mut terms = Vec::new();
    for id in ids {
        terms.push(TypeTerm::new(id.to_string()));
    }
    TypeLadder::new(terms)
}

#[test]
fn numbers_render_in_decimal() {
    assert_eq!(fmt_usize(0), "0");
    assert_eq!(fmt_usize(7), "7");
    assert_eq!(fmt_usize(42), "42");
    assert_eq!(fmt_usize(1000), "1000");
    assert_eq!(fmt_usize(90210), "90210");
}

#[test]
fn terms_render_with_their_parameters() {
    assert_eq!(render_term(&TypeTerm::new("Bytes".to_string())), "Bytes");
    let t = TypeTerm { id: "Seq".to_string(), params: vec!["Char".to_string()] };
    assert_eq!(render_term(&t), "(Seq Char)");
    let t2 = TypeTerm {
        id: "PosInt".to_string(),
        params: vec!["10".to_string(), "BigEndian".to_string()],
    };
    assert_eq!(render_term(&t2), "(PosInt 10 BigEndian)");
}

#[test]
fn ladders_render_concrete_to_abstract() {
    assert_eq!(render_ladder(&ladder(&[])), "");
    assert_eq!(render_ladder(&ladder(&["Bytes"])), "Bytes");
    assert_eq!(render_ladder(&ladder(&["Bytes", "Lines", "Names"])), "Bytes~Lines~Names");
}

#[test]
fn fixed_messages_render_verbatim() {
    assert_eq!(Diagnostic::EmptyPipeline.render(), "empty pipeline");
    assert_eq!(
        Diagnostic::MissingTypeInfo { addr: 1 }.render(),
        "could not check, missing typeinfo"
    );
    assert_eq!(Diagnostic::CheckOk.render(), "type check ok");
}

#[test]
fn match_diagnostic_names_the_level_count() {
    let d = Diagnostic::LadderMatch {
        addr: 1,
        found: ladder(&["Bytes", "Lines", "Names"]),
        expected: ladder(&["Bytes", "Lines"]),
        level: 2,
    };
    assert_eq!(
        d.render(),
        "matching types. found Bytes~Lines~Names expected Bytes~Lines level 2"
    );
    assert!(matches!(d.level(), Level::Info));
    assert_eq!(d.addr(), Some(1));
}

#[test]
fn mismatch_diagnostic_names_the_divergence_point() {
    let d = Diagnostic::LadderMismatch {
        addr: 1,
        found: ladder(&["UnixTime"]),
        expected: ladder(&["Lines"]),
        first_match: 0,
        first_mismatch: 0,
    };
    assert_eq!(d.render(), "type error. found UnixTime expected Lines at 0");
    assert!(matches!(d.level(), Level::Error));
    assert_eq!(d.addr(), Some(1));
}
