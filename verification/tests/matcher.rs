use typed_shell::ladder::{term_eq, MatchResult, TypeLadder, TypeTerm};

fn ladder(ids: &[&str]) -> TypeLadder {
    let mut terms = Vec::new();
    for id in ids {
        terms.push(TypeTerm::new(id.to_string()));
    }
    TypeLadder::new(terms)
}

#[test]
fn matched_shared_prefix_diverging_after() {
    let out = ladder(&["Bytes", "Lines", "FileNames"]);
    let inp = ladder(&["Bytes", "Lines", "Counts"]);
    assert!(matches!(out.is_matching_repr(&inp), MatchResult::Matched(2)));
}

#[test]
fn matched_when_one_ladder_exhausted() {
    let out = ladder(&["Bytes", "Lines"]);
    let inp = ladder(&["Bytes", "Lines", "Counts", "Totals"]);
    assert!(matches!(out.is_matching_repr(&inp), MatchResult::Matched(2)));
    let out2 = ladder(&["Bytes", "Lines", "Counts", "Totals"]);
    let inp2 = ladder(&["Bytes", "Lines"]);
    assert!(matches!(out2.is_matching_repr(&inp2), MatchResult::Matched(2)));
}

#[test]
fn matched_full_equality() {
    let out = ladder(&["Bytes", "Lines"]);
    let inp = ladder(&["Bytes", "Lines"]);
    assert!(matches!(out.is_matching_repr(&inp), MatchResult::Matched(2)));
}

#[test]
fn mismatched_at_index_zero() {
    let out = ladder(&["UnixTime"]);
    let inp = ladder(&["Lines"]);
    assert!(matches!(out.is_matching_repr(&inp), MatchResult::Mismatched(0, 0)));
}

#[test]
fn empty_ladder_is_unknown_not_mismatch() {
    let out = ladder(&[]);
    let inp = ladder(&["Lines"]);
    assert!(matches!(out.is_matching_repr(&inp), MatchResult::Unknown));
    let out2 = ladder(&["Lines"]);
    let inp2 = ladder(&[]);
    assert!(matches!(out2.is_matching_repr(&inp2), MatchResult::Unknown));
}

#[test]
fn term_equality_is_structural() {
    let a = TypeTerm { id: "Seq".to_string(), params: vec!["Char".to_string()] };
    let b = TypeTerm { id: "Seq".to_string(), params: vec!["Char".to_string()] };
    let c = TypeTerm { id: "Seq".to_string(), params: vec!["Byte".to_string()] };
    let d = TypeTerm { id: "Seq".to_string(), params: vec![] };
    assert!(term_eq(&a, &b));
    assert!(!term_eq(&a, &c));
    assert!(!term_eq(&a, &d));
}

#[test]
fn parameterized_terms_compare_in_ladders() {
    let seq_char = TypeTerm { id: "Seq".to_string(), params: vec!["Char".to_string()] };
    let seq_char2 = TypeTerm { id: "Seq".to_string(), params: vec!["Char".to_string()] };
    let seq_byte = TypeTerm { id: "Seq".to_string(), params: vec!["Byte".to_string()] };
    let out = TypeLadder::new(vec![seq_byte, seq_char]);
    let inp = TypeLadder::new(vec![seq_char2]);
    assert!(matches!(out.is_matching_repr(&inp), MatchResult::Mismatched(0, 0)));
}
