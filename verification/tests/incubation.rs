use typed_shell::incubator::{Incubator, TypedLeaf};
use typed_shell::ladder::TypeTerm;

fn leaf(tag: &str, value: char) -> TypedLeaf {
    TypedLeaf { tag: TypeTerm::new(tag.to_string()), value }
}

#[test]
fn terminal_event_incubates_to_a_character() {
    let inc = Incubator::new(TypeTerm::new("Char".to_string()));
    let out = inc.incubate(&leaf("TerminalEvent", 'x')).expect("reinterpreted");
    assert_eq!(out.tag.id, "Char");
    assert!(out.tag.params.is_empty());
    assert_eq!(out.value, 'x');
}

#[test]
fn digit_character_incubates_to_a_base_ten_digit() {
    let inc = Incubator::new(TypeTerm::new("Digit".to_string()));
    let out = inc.incubate(&leaf("Char", '7')).expect("reinterpreted");
    assert_eq!(out.tag.id, "Digit");
    assert_eq!(out.tag.params, vec!["10".to_string()]);
    assert_eq!(out.value, '7');
}

#[test]
fn non_digit_character_stays_as_it_is() {
    let inc = Incubator::new(TypeTerm::new("Digit".to_string()));
    assert!(inc.incubate(&leaf("Char", 'q')).is_none());
    assert!(inc.incubate(&leaf("Lines", '3')).is_none());
}

#[test]
fn collected_units_stack_in_order() {
    let mut inc = Incubator::new(TypeTerm::new("Char".to_string()));
    inc.send_cmd('a');
    inc.send_cmd('b');
    assert_eq!(inc.stack.len(), 2);
    assert_eq!(inc.stack[0].value, 'a');
    assert_eq!(inc.stack[1].value, 'b');
    assert_eq!(inc.stack[0].tag.id, "Char");
}
