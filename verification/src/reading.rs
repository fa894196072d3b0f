//! The text of an integer-labelled formula can be read in one way only: two
//! such formulas with the same text are the same formula.
//!
//! This does not hold of text-labelled formulas, whose labels may hold the
//! signs and brackets themselves.

use vstd::prelude::*;
use crate::decimal::{
    decimal, digit_char, digits, lemma_decimal_is_injective, lemma_digits_write_the_number,
};
use crate::formula::AtomType;
use crate::syntax::{
    always_sign, conjunction_sign, disjunction_sign, eventually_sign, negation_sign, FormulaView,
};

verus! {

/// Whether `c` is a decimal digit.
spec fn is_digit(c: char) -> bool {
    c == '0' || c == '1' || c == '2' || c == '3' || c == '4' || c == '5' || c == '6' || c == '7'
        || c == '8' || c == '9'
}

/// Whether `rest` can stand behind a number without being read as part of
/// it: it is empty or begins with something else than a digit.
spec fn ends_number(rest: Seq<char>) -> bool {
    rest.len() == 0 || !is_digit(rest[0])
}

/// The kinds of formula that the first character of a text tells apart.
enum Lead {
    Number,
    Word,
    Bracket,
    Not,
    Diamond,
    Square,
    Other,
}

/// What the character `c` announces at the beginning of a text.
spec fn lead_of_char(c: char) -> Lead {
    if is_digit(c) || c == '-' {
        Lead::Number
    } else if c == 't' || c == 'f' {
        Lead::Word
    } else if c == '(' {
        Lead::Bracket
    } else if c == '\u{ac}' {
        Lead::Not
    } else if c == '<' {
        Lead::Diamond
    } else if c == '[' {
        Lead::Square
    } else {
        Lead::Other
    }
}

/// What the text of `formula` begins with.
spec fn lead_of_formula(formula: FormulaView<AtomType>) -> Lead {
    match formula {
        FormulaView::AtomicProposition(_) => Lead::Number,
        FormulaView::Boolean(_) => Lead::Word,
        FormulaView::Conjunction(_, _) => Lead::Bracket,
        FormulaView::Disjunction(_, _) => Lead::Bracket,
        FormulaView::Negation(_) => Lead::Not,
        FormulaView::Eventually(_) => Lead::Diamond,
        FormulaView::Always(_) => Lead::Square,
    }
}

/// The digits of a number are digits.
proof fn lemma_digits_are_digits(n: nat)
    ensures
        forall|i: int| 0 <= i < digits(n).len() ==> is_digit(#[trigger] digits(n)[i]),
    decreases n,
{
    if n >= 10 {
        lemma_digits_are_digits(n / 10);
        let front = digits(n / 10);
        let last = digit_char((n % 10) as int);
        assert(digits(n) == front.push(last));
        assert forall|i: int| 0 <= i < digits(n).len() implies is_digit(
            #[trigger] digits(n)[i],
        ) by {
            if i < front.len() {
                assert(digits(n)[i] == front[i]);
            } else {
                assert(digits(n)[i] == last);
            }
        }
    }
}

/// A decimal notation is not empty; it begins with a digit or a minus sign,
/// and goes on with digits.
proof fn lemma_decimal_shape(n: int)
    ensures
        decimal(n).len() >= 1,
        lead_of_char(decimal(n)[0]) == Lead::Number,
        forall|i: int| 1 <= i < decimal(n).len() ==> is_digit(#[trigger] decimal(n)[i]),
{
    if n < 0 {
        lemma_digits_are_digits((-n) as nat);
        lemma_digits_write_the_number((-n) as nat);
        assert forall|i: int| 1 <= i < decimal(n).len() implies is_digit(
            #[trigger] decimal(n)[i],
        ) by {
            assert(decimal(n)[i] == digits((-n) as nat)[i - 1]);
        }
    } else {
        lemma_digits_are_digits(n as nat);
        lemma_digits_write_the_number(n as nat);
    }
}

/// Texts that are equal after the same beginning are equal.
proof fn lemma_same_beginning(beginning: Seq<char>, a: Seq<char>, b: Seq<char>)
    requires
        beginning + a == beginning + b,
    ensures
        a == b,
{
    assert(a =~= (beginning + a).skip(beginning.len() as int));
    assert(b =~= (beginning + b).skip(beginning.len() as int));
}

/// Two numbers, each followed by something that ends it, give the same text
/// only if they are the same number, followed by the same.
proof fn lemma_number_is_read_in_one_way(a: int, after_a: Seq<char>, b: int, after_b: Seq<char>)
    requires
        decimal(a) + after_a == decimal(b) + after_b,
        ends_number(after_a),
        ends_number(after_b),
    ensures
        a == b,
        after_a == after_b,
{
    let x = decimal(a);
    let y = decimal(b);
    lemma_decimal_shape(a);
    lemma_decimal_shape(b);
    assert((x + after_a).len() == (y + after_b).len());
    if x.len() < y.len() {
        let k = x.len() as int;
        assert((x + after_a)[k] == after_a[0]);
        assert((y + after_b)[k] == y[k]);
        assert(false);
    }
    if y.len() < x.len() {
        let k = y.len() as int;
        assert((y + after_b)[k] == after_b[0]);
        assert((x + after_a)[k] == x[k]);
        assert(false);
    }
    assert(x =~= y) by {
        assert forall|i: int| 0 <= i < x.len() implies x[i] == y[i] by {
            assert((x + after_a)[i] == x[i]);
            assert((y + after_b)[i] == y[i]);
        }
    }
    lemma_decimal_is_injective(a, b);
    lemma_same_beginning(x, after_a, after_b);
}

/// The text of a formula is not empty, and its first character tells the
/// kind of the formula, but for the two connectives, which both begin with a
/// bracket.
proof fn lemma_text_begins_by_kind(formula: FormulaView<AtomType>)
    ensures
        formula.render().len() >= 1,
        lead_of_char(formula.render()[0]) == lead_of_formula(formula),
{
    match formula {
        FormulaView::AtomicProposition(var) => {
            lemma_decimal_shape(var as int);
        },
        FormulaView::Boolean(_) => {},
        FormulaView::Conjunction(_, _) => {},
        FormulaView::Disjunction(_, _) => {},
        FormulaView::Negation(_) => {},
        FormulaView::Eventually(_) => {},
        FormulaView::Always(_) => {},
    }
}

/// Two formulas, each followed by something that would end a number, give
/// the same text only if they are the same formula, followed by the same.
proof fn lemma_formula_is_read_in_one_way(
    a: FormulaView<AtomType>,
    after_a: Seq<char>,
    b: FormulaView<AtomType>,
    after_b: Seq<char>,
)
    requires
        a.render() + after_a == b.render() + after_b,
        ends_number(after_a),
        ends_number(after_b),
    ensures
        a == b,
        after_a == after_b,
    decreases a, 1nat,
{
    lemma_text_begins_by_kind(a);
    lemma_text_begins_by_kind(b);
    assert((a.render() + after_a)[0] == a.render()[0]);
    assert((b.render() + after_b)[0] == b.render()[0]);
    assert(lead_of_formula(a) == lead_of_formula(b));
    match a {
        FormulaView::AtomicProposition(x) => {
            let y = b->AtomicProposition_0;
            lemma_number_is_read_in_one_way(x as int, after_a, y as int, after_b);
        },
        FormulaView::Boolean(x) => {
            let y = b->Boolean_0;
            assert(x == y);
            lemma_same_beginning(a.render(), after_a, after_b);
        },
        FormulaView::Conjunction(_, _) => {
            lemma_binary_is_read_in_one_way(a, after_a, b, after_b);
        },
        FormulaView::Disjunction(_, _) => {
            lemma_binary_is_read_in_one_way(a, after_a, b, after_b);
        },
        FormulaView::Negation(inner) => {
            let other = b->Negation_0;
            assert(a.render() + after_a =~= negation_sign() + (inner.render() + after_a));
            assert(b.render() + after_b =~= negation_sign() + (other.render() + after_b));
            lemma_same_beginning(
                negation_sign(),
                inner.render() + after_a,
                other.render() + after_b,
            );
            lemma_formula_is_read_in_one_way(*inner, after_a, *other, after_b);
        },
        FormulaView::Eventually(inner) => {
            let other = b->Eventually_0;
            assert(a.render() + after_a =~= eventually_sign() + (inner.render() + after_a));
            assert(b.render() + after_b =~= eventually_sign() + (other.render() + after_b));
            lemma_same_beginning(
                eventually_sign(),
                inner.render() + after_a,
                other.render() + after_b,
            );
            lemma_formula_is_read_in_one_way(*inner, after_a, *other, after_b);
        },
        FormulaView::Always(inner) => {
            let other = b->Always_0;
            assert(a.render() + after_a =~= always_sign() + (inner.render() + after_a));
            assert(b.render() + after_b =~= always_sign() + (other.render() + after_b));
            lemma_same_beginning(
                always_sign(),
                inner.render() + after_a,
                other.render() + after_b,
            );
            lemma_formula_is_read_in_one_way(*inner, after_a, *other, after_b);
        },
    }
}

/// The left operand of a connective.
spec fn left(formula: FormulaView<AtomType>) -> FormulaView<AtomType> {
    match formula {
        FormulaView::Conjunction(lhs, _) => *lhs,
        FormulaView::Disjunction(lhs, _) => *lhs,
        _ => formula,
    }
}

/// The right operand of a connective.
spec fn right(formula: FormulaView<AtomType>) -> FormulaView<AtomType> {
    match formula {
        FormulaView::Conjunction(_, rhs) => *rhs,
        FormulaView::Disjunction(_, rhs) => *rhs,
        _ => formula,
    }
}

/// The sign of a connective.
spec fn sign(formula: FormulaView<AtomType>) -> Seq<char> {
    if formula is Conjunction {
        conjunction_sign()
    } else {
        disjunction_sign()
    }
}

/// The text of a connective, followed by `after`, taken apart.
proof fn lemma_text_of_binary(formula: FormulaView<AtomType>, after: Seq<char>)
    requires
        formula is Conjunction || formula is Disjunction,
    ensures
        formula.render() + after == seq!['('] + (left(formula).render() + (sign(formula) + (right(
            formula,
        ).render() + (seq![')'] + after)))),
        (sign(formula) + (right(formula).render() + (seq![')'] + after)))[0] == ' ',
        (sign(formula) + (right(formula).render() + (seq![')'] + after)))[1] == sign(formula)[1],
        (seq![')'] + after)[0] == ')',
{
    let open = seq!['('];
    let close = seq![')'];
    let l = left(formula).render();
    let r = right(formula).render();
    let sg = sign(formula);
    assert(formula.render() == open + l + sg + r + close);
    assert(open + l + sg + r + close + after =~= open + (l + (sg + (r + (close + after)))));
}

/// The two signs differ in their second character.
proof fn lemma_sign_tells_connective(a: FormulaView<AtomType>, b: FormulaView<AtomType>)
    requires
        a is Conjunction || a is Disjunction,
        b is Conjunction || b is Disjunction,
        sign(a)[1] == sign(b)[1],
    ensures
        a is Conjunction <==> b is Conjunction,
        sign(a) == sign(b),
{
}

/// The case of the connectives in `lemma_formula_is_read_in_one_way`.
proof fn lemma_binary_is_read_in_one_way(
    a: FormulaView<AtomType>,
    after_a: Seq<char>,
    b: FormulaView<AtomType>,
    after_b: Seq<char>,
)
    requires
        a is Conjunction || a is Disjunction,
        b is Conjunction || b is Disjunction,
        a.render() + after_a == b.render() + after_b,
        ends_number(after_a),
        ends_number(after_b),
    ensures
        a == b,
        after_a == after_b,
    decreases a, 0nat,
{
    let open = seq!['('];
    let close = seq![')'];
    let end_a = close + after_a;
    let end_b = close + after_b;
    let right_a = right(a).render() + end_a;
    let right_b = right(b).render() + end_b;
    let rest_a = sign(a) + right_a;
    let rest_b = sign(b) + right_b;
    lemma_text_of_binary(a, after_a);
    lemma_text_of_binary(b, after_b);
    lemma_same_beginning(open, left(a).render() + rest_a, left(b).render() + rest_b);
    lemma_formula_is_read_in_one_way(left(a), rest_a, left(b), rest_b);
    lemma_sign_tells_connective(a, b);
    lemma_same_beginning(sign(a), right_a, right_b);
    lemma_formula_is_read_in_one_way(right(a), end_a, right(b), end_b);
    lemma_same_beginning(close, after_a, after_b);
}

/// Integer-labelled formulas with the same text are the same formula.
pub proof fn lemma_render_is_injective(a: FormulaView<AtomType>, b: FormulaView<AtomType>)
    requires
        a.render() == b.render(),
    ensures
        a == b,
{
    let nothing = Seq::<char>::empty();
    assert(a.render() + nothing =~= a.render());
    assert(b.render() + nothing =~= b.render());
    lemma_formula_is_read_in_one_way(a, nothing, b, nothing);
}

} // verus!
