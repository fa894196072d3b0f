use ltl::{always, atomic, boolean, conjunction, disjunction, eventually, is_true, negation};
use ltl::LTLFormula;

#[test]
fn true_constant_is_true() {
    assert!(is_true(&boolean(true)));
    assert!(boolean(true).is_true());
}

#[test]
fn false_constant_is_not_true() {
    assert!(!is_true(&boolean(false)));
    assert!(!boolean(false).is_true());
}

#[test]
fn atomic_proposition_is_not_true() {
    assert!(!is_true(&atomic(0)));
    assert!(!is_true(&atomic(1)));
    assert!(!is_true(&atomic(-1)));
}

#[test]
fn conjunction_of_true_constants_is_not_true() {
    assert!(!is_true(&conjunction(&boolean(true), &boolean(true))));
}

#[test]
fn disjunction_of_true_constants_is_not_true() {
    assert!(!is_true(&disjunction(&boolean(true), &boolean(true))));
}

#[test]
fn negation_of_false_constant_is_not_true() {
    assert!(!is_true(&negation(&boolean(false))));
    assert!(!is_true(&negation(&boolean(true))));
}

#[test]
fn temporal_operator_over_true_constant_is_not_true() {
    assert!(!is_true(&eventually(&boolean(true))));
    assert!(!is_true(&always(&boolean(true))));
}

#[test]
fn text_labelled_formula_is_not_true() {
    let a = atomic(String::from("true"));
    assert!(!a.is_true());
    assert!(!negation(&a).is_true());
    assert!(!conjunction(&a, &a).is_true());
}
