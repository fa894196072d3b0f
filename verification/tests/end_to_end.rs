use ltl::{always, atomic, boolean, conjunction, disjunction, eventually, negation, render};
use ltl::{AtomType, Formula, LTLFormula};

#[test]
fn integer_labelled_conjunctions_render_bracketed() {
    let f = conjunction(&atomic(8), &atomic(1));
    let g = conjunction(&f, &atomic(4));
    assert_eq!(g.to_string(), "((8 ∧ 1) ∧ 4)");
    assert_eq!(render(&g), "((8 ∧ 1) ∧ 4)");
}

#[test]
fn text_labelled_conjunctions_render_bracketed() {
    let f = conjunction(&atomic(String::from("A")), &atomic(String::from("B")));
    let g = conjunction(&f, &atomic(String::from("C")));
    assert_eq!(g.to_string(), "((A ∧ B) ∧ C)");
    assert_eq!(render(&g), "((A ∧ B) ∧ C)");
}

#[test]
fn rendered_text_is_the_expected_bytes() {
    let f = disjunction(&negation(&atomic(1)), &conjunction(&atomic(2), &atomic(3)));
    let expected: &[u8] = &[
        b'(', 0xC2, 0xAC, b'1', b' ', 0xE2, 0x88, 0xA8, b' ', b'(', b'2', b' ', 0xE2, 0x88, 0xA7,
        b' ', b'3', b')', b')',
    ];
    assert_eq!(render(&f).as_bytes(), expected);
}

#[test]
fn every_kind_of_formula_in_one_tree() {
    let request = atomic(String::from("request"));
    let grant = atomic(String::from("grant"));
    let served = disjunction(&negation(&request), &eventually(&grant));
    let safe = always(&conjunction(&served, &negation(&atomic(String::from("fault")))));
    assert_eq!(render(&safe), "[]((¬request ∨ <>grant) ∧ ¬fault)");
}

#[test]
fn integer_labelled_tree_with_constants() {
    let tree: Box<Formula<AtomType>> = always(&disjunction(
        &conjunction(&boolean(true), &atomic(-7)),
        &eventually(&negation(&boolean(false))),
    ));
    assert_eq!(render(&tree), "[]((true ∧ -7) ∨ <>¬false)");
}
