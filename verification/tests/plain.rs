use riemann_egui_dash::sequence::reversed;
use riemann_egui_dash::text::same_text;

#[test]
fn reversing_turns_the_order() {
    assert_eq!(reversed(vec![1, 2, 3]), vec![3, 2, 1]);
    assert_eq!(reversed(vec!["only"]), vec!["only"]);
    assert_eq!(reversed(Vec::<u8>::new()), Vec::<u8>::new());
    assert_eq!(reversed(reversed(vec![4, 5, 6, 7])), vec![4, 5, 6, 7]);
}

#[test]
fn texts_are_compared_character_by_character() {
    assert!(same_text("", ""));
    assert!(same_text("state", "state"));
    assert!(!same_text("state", "State"));
    assert!(!same_text("state", "states"));
    assert!(!same_text("é", "e"));
    assert!(same_text("📈", "📈"));
}
