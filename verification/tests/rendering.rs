use ltl::{always, atomic, boolean, conjunction, disjunction, eventually, negation, render};
use ltl::LTLFormula;

#[test]
fn integer_atom_renders_as_decimal() {
    assert_eq!(render(&atomic(8)), "8");
    assert_eq!(render(&atomic(0)), "0");
    assert_eq!(render(&atomic(-1)), "-1");
    assert_eq!(render(&atomic(10)), "10");
    assert_eq!(render(&atomic(1234567890)), "1234567890");
}

#[test]
fn integer_atom_renders_at_the_limits() {
    assert_eq!(render(&atomic(i32::MAX)), "2147483647");
    assert_eq!(render(&atomic(i32::MIN)), "-2147483648");
}

#[test]
fn integer_atom_renders_as_std_formats_it() {
    let labels = [
        0, 1, -1, 9, 10, 11, 99, 100, 101, -9, -10, -99, -100, 4096, -4096, 65535, 1000000,
        -1000000, 2147483646, -2147483647, i32::MAX, i32::MIN,
    ];
    for label in labels {
        assert_eq!(render(&atomic(label)), format!("{}", label));
    }
}

#[test]
fn text_atom_renders_as_its_label() {
    assert_eq!(render(&atomic(String::from("A"))), "A");
    assert_eq!(render(&atomic(String::from("door open"))), "door open");
    assert_eq!(render(&atomic(String::new())), "");
}

#[test]
fn text_atom_keeps_signs_and_brackets_of_its_label() {
    assert_eq!(render(&atomic(String::from("(A ∧ B)"))), "(A ∧ B)");
    assert_eq!(render(&atomic(String::from("¬<>[]"))), "¬<>[]");
    assert_eq!(render(&atomic(String::from("grüße 世界"))), "grüße 世界");
}

#[test]
fn constant_renders_as_word() {
    assert_eq!(render(&boolean(true)), "true");
    assert_eq!(render(&boolean(false)), "false");
}

#[test]
fn conjunction_renders_operands_in_order_between_brackets() {
    let a = atomic(1);
    let b = atomic(2);
    assert_eq!(render(&conjunction(&a, &b)), "(1 ∧ 2)");
    assert_eq!(render(&conjunction(&b, &a)), "(2 ∧ 1)");
    assert_eq!(
        render(&conjunction(&a, &b)),
        format!("({} ∧ {})", render(&a), render(&b))
    );
}

#[test]
fn disjunction_renders_operands_in_order_between_brackets() {
    let a = atomic(1);
    let b = atomic(2);
    assert_eq!(render(&disjunction(&a, &b)), "(1 ∨ 2)");
    assert_eq!(render(&disjunction(&b, &a)), "(2 ∨ 1)");
    assert_eq!(
        render(&disjunction(&a, &b)),
        format!("({} ∨ {})", render(&a), render(&b))
    );
}

#[test]
fn negation_renders_sign_before_operand_without_brackets() {
    let a = atomic(5);
    assert_eq!(render(&negation(&a)), "¬5");
    assert_eq!(render(&negation(&negation(&a))), "¬¬5");
    assert_eq!(render(&negation(&a)), format!("¬{}", render(&a)));
}

#[test]
fn eventually_renders_sign_before_operand_without_brackets() {
    let a = atomic(5);
    assert_eq!(render(&eventually(&a)), "<>5");
    assert_eq!(render(&eventually(&eventually(&a))), "<><>5");
    assert_eq!(render(&eventually(&a)), format!("<>{}", render(&a)));
}

#[test]
fn always_renders_sign_before_operand_without_brackets() {
    let a = atomic(5);
    assert_eq!(render(&always(&a)), "[]5");
    assert_eq!(render(&always(&always(&a))), "[][]5");
    assert_eq!(render(&always(&a)), format!("[]{}", render(&a)));
}

#[test]
fn unary_operator_over_connective_keeps_the_connective_brackets() {
    let both = conjunction(&atomic(1), &atomic(2));
    assert_eq!(render(&negation(&both)), "¬(1 ∧ 2)");
    assert_eq!(render(&eventually(&both)), "<>(1 ∧ 2)");
    assert_eq!(render(&always(&both)), "[](1 ∧ 2)");
}

#[test]
fn connective_over_unary_operator_adds_no_brackets_to_it() {
    let a = negation(&atomic(1));
    let b = always(&atomic(2));
    assert_eq!(render(&conjunction(&a, &b)), "(¬1 ∧ []2)");
    assert_eq!(render(&disjunction(&a, &b)), "(¬1 ∨ []2)");
}

#[test]
fn nesting_on_the_right_is_bracketed_too() {
    let right = conjunction(&atomic(1), &conjunction(&atomic(2), &atomic(3)));
    let left = conjunction(&conjunction(&atomic(1), &atomic(2)), &atomic(3));
    assert_eq!(render(&right), "(1 ∧ (2 ∧ 3))");
    assert_eq!(render(&left), "((1 ∧ 2) ∧ 3)");
}

#[test]
fn rendering_twice_gives_the_same_text() {
    let f = disjunction(&atomic(3), &negation(&atomic(4)));
    assert_eq!(render(&f), render(&f));
    assert_eq!(f.to_string(), render(&f));
}

#[test]
fn deep_tree_renders() {
    let mut f = atomic(0);
    for _ in 0..200 {
        f = negation(&f);
    }
    let text = render(&f);
    assert_eq!(text.chars().count(), 201);
    assert!(text.ends_with('0'));
    assert!(text.chars().take(200).all(|c| c == '¬'));
}

#[test]
fn different_integer_labelled_formulas_render_differently() {
    let one = atomic(1);
    let two = atomic(2);
    let formulas = vec![
        atomic(1),
        atomic(12),
        atomic(-1),
        boolean(true),
        boolean(false),
        conjunction(&one, &two),
        conjunction(&two, &one),
        disjunction(&one, &two),
        negation(&one),
        eventually(&one),
        always(&one),
        conjunction(&conjunction(&one, &two), &one),
        conjunction(&one, &conjunction(&two, &one)),
        negation(&conjunction(&one, &two)),
        conjunction(&negation(&one), &two),
    ];
    for (i, f) in formulas.iter().enumerate() {
        for (j, g) in formulas.iter().enumerate() {
            assert_eq!(render(f) == render(g), i == j);
        }
    }
}

#[test]
fn text_label_can_render_as_a_composite_does() {
    let composite = conjunction(&atomic(String::from("A")), &atomic(String::from("B")));
    let leaf = atomic(String::from("(A ∧ B)"));
    assert_eq!(render(&composite), render(&leaf));
}
