use peg_expr::{char, str, BuildError, Element, ElementKind, LookaheadKind, LoopRange, Maxable};

#[test]
fn fresh_string_leaf_has_default_annotations() {
    let e = str("abc");
    assert_eq!(e.lookahead_kind, LookaheadKind::Normal);
    assert_eq!(e.loop_count.render(), "");
    assert_eq!(e.render(), "abc");
}

#[test]
fn fresh_character_class_has_default_annotations() {
    let e = char("a-z").unwrap();
    assert_eq!(e.lookahead_kind, LookaheadKind::Normal);
    assert_eq!(e.loop_count.render(), "");
    assert_eq!(e.render(), "[a-z]");
}

#[test]
fn wildcard_renders_as_underscore() {
    let e = Element::new(ElementKind::Wildcard);
    assert_eq!(e.render(), "_");
}

#[test]
fn sequence_combination_is_associative() {
    let left = str("a").sequence(str("b")).sequence(str("c"));
    let right = str("a").sequence(str("b").sequence(str("c")));
    assert_eq!(left.render(), "(a + b + c)");
    assert_eq!(right.render(), "(a + b + c)");
}

#[test]
fn choice_combination_is_associative() {
    let left = str("a").choice(str("b")).choice(str("c"));
    let right = str("a").choice(str("b").choice(str("c")));
    assert_eq!(left.render(), "(a | b | c)");
    assert_eq!(right.render(), "(a | b | c)");
}

#[test]
fn choice_keeps_operand_order() {
    let e = str("a").choice(str("b"));
    assert_eq!(e.render(), "(a | b)");
}

#[test]
fn annotated_composite_is_not_flattened() {
    let grouped = str("a").choice(str("b")).times(2);
    let e = grouped.choice(str("c"));
    assert_eq!(e.render(), "((a | b){2} | c)");
}

#[test]
fn loop_range_rendering_table() {
    assert_eq!(str("a").times(1).render(), "a");
    assert_eq!(str("a").times(3).render(), "a{3}");
    assert_eq!(str("a").min(2).render(), "a{2-}");
    assert_eq!(str("a").min_to_max(2, 5).unwrap().render(), "a{2-5}");
    assert_eq!(str("a").min_to_max(3, 3).unwrap().render(), "a{3}");
}

#[test]
fn loop_range_renders_multiple_digits() {
    assert_eq!(str("a").times(12345).render(), "a{12345}");
    assert_eq!(str("a").min(0).render(), "a{0-}");
    assert_eq!(str("a").min_to_max(0, 10).unwrap().render(), "a{0-10}");
}

#[test]
fn last_loop_range_wins() {
    let e = str("a").times(3).min(2);
    assert_eq!(e.render(), "a{2-}");
}

#[test]
fn positive_lookahead_renders_with_ampersand() {
    assert_eq!(str("a").pos().unwrap().render(), "&a");
}

#[test]
fn negative_lookahead_renders_with_bang() {
    assert_eq!(str("a").neg().unwrap().render(), "!a");
}

#[test]
fn double_lookahead_is_rejected() {
    let r = str("a").pos().unwrap().pos();
    assert_eq!(r, Err(BuildError::LookaheadAlreadySet));
    let r = str("a").pos().unwrap().neg();
    assert_eq!(r, Err(BuildError::LookaheadAlreadySet));
}

#[test]
fn invalid_loop_range_is_rejected() {
    let r = str("a").min_to_max(5, 2);
    assert_eq!(r, Err(BuildError::InvalidLoopRange));
}

#[test]
fn validate_new_checks_the_bounds() {
    let r = LoopRange::validate_new(5, Maxable::Specified(2));
    assert_eq!(r, Err(BuildError::InvalidLoopRange));
    assert!(LoopRange::validate_new(2, Maxable::Specified(5)).is_ok());
    assert!(LoopRange::validate_new(5, Maxable::Max).is_ok());
}

#[test]
fn brackets_in_class_patterns_are_escaped() {
    let e = char("]a[").unwrap();
    assert_eq!(e.render(), "[\\]a\\[]");
}

#[test]
fn escaped_class_matches_the_bracket_characters() {
    let e = char("]a[").unwrap();
    let compiled = regex::Regex::new(&e.render()).unwrap();
    assert!(compiled.is_match("]"));
    assert!(compiled.is_match("a"));
    assert!(compiled.is_match("["));
    assert!(!compiled.is_match("b"));
}

#[test]
fn invalid_character_class_is_rejected() {
    let r = char("z-a");
    assert!(matches!(r, Err(BuildError::InvalidCharacterClass)));
}

#[test]
fn sequence_then_choice_end_to_end() {
    let e = str("a").sequence(str("b")).choice(str("c"));
    assert_eq!(e.render(), "((a + b) | c)");
}

#[test]
fn keyword_then_identifier_example() {
    let e = str("if").sequence(char("a-z").unwrap().min(1));
    assert_eq!(e.render(), "(if + [a-z]{1-})");
}

#[test]
fn lookahead_prefix_and_loop_suffix_compose() {
    let e = str("a").pos().unwrap().times(3);
    assert_eq!(e.render(), "&a{3}");
}
