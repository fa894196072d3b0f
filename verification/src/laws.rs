//! What holds of every formula, stated over the abstract syntax.

use vstd::prelude::*;
use crate::decimal::decimal;
use crate::formula::AtomType;
use crate::label::Label;
use crate::syntax::{
    always_sign, conjunction_sign, disjunction_sign, eventually_sign, false_text, negation_sign,
    true_text, FormulaView,
};

verus! {

/// An atomic proposition is written as its label is.
pub proof fn law_atomic_renders_as_label<L: Label>(var: L)
    ensures
        FormulaView::AtomicProposition(var).render() == var.text(),
{
}

/// An integer-labelled atomic proposition is written as its label in decimal
/// notation.
pub proof fn law_integer_atomic_renders_in_decimal(var: AtomType)
    ensures
        FormulaView::AtomicProposition(var).render() == decimal(var as int),
{
}

/// A text-labelled atomic proposition is written as the text of its label.
pub proof fn law_text_atomic_renders_as_text(var: String)
    ensures
        FormulaView::AtomicProposition(var).render() == var@,
{
}

/// A constant is written as `true` or `false`.
pub proof fn law_constant_renders_as_word(value: bool)
    ensures
        FormulaView::<AtomType>::Boolean(value).render() == if value {
            true_text()
        } else {
            false_text()
        },
{
}

/// A conjunction is written as its operands, the left one first, with the
/// sign between them and brackets around them.
pub proof fn law_conjunction_renders_bracketed<L: Label>(lhs: FormulaView<L>, rhs: FormulaView<L>)
    ensures
        FormulaView::Conjunction(Box::new(lhs), Box::new(rhs)).render() == seq!['(']
            + lhs.render() + conjunction_sign() + rhs.render() + seq![')'],
{
}

/// A disjunction is written as its operands, the left one first, with the
/// sign between them and brackets around them.
pub proof fn law_disjunction_renders_bracketed<L: Label>(lhs: FormulaView<L>, rhs: FormulaView<L>)
    ensures
        FormulaView::Disjunction(Box::new(lhs), Box::new(rhs)).render() == seq!['(']
            + lhs.render() + disjunction_sign() + rhs.render() + seq![')'],
{
}

/// A negation is written as the sign and then its operand, with no brackets
/// added.
pub proof fn law_negation_renders_prefixed<L: Label>(inner: FormulaView<L>)
    ensures
        FormulaView::Negation(Box::new(inner)).render() == negation_sign() + inner.render(),
{
}

/// An eventuality is written as the sign and then its operand, with no
/// brackets added.
pub proof fn law_eventually_renders_prefixed<L: Label>(inner: FormulaView<L>)
    ensures
        FormulaView::Eventually(Box::new(inner)).render() == eventually_sign() + inner.render(),
{
}

/// An invariance is written as the sign and then its operand, with no
/// brackets added.
pub proof fn law_always_renders_prefixed<L: Label>(inner: FormulaView<L>)
    ensures
        FormulaView::Always(Box::new(inner)).render() == always_sign() + inner.render(),
{
}

/// A constant reports its own value.
pub proof fn law_constant_reports_its_value(value: bool)
    ensures
        FormulaView::<AtomType>::Boolean(value).truth() == value,
{
}

/// Only the constant `true` reports truth: every other formula reports
/// `false`, also a connective over true constants.
pub proof fn law_only_true_constant_reports_truth<L: Label>(formula: FormulaView<L>)
    ensures
        formula.truth() <==> formula == FormulaView::<L>::Boolean(true),
        !(formula is Boolean) ==> !formula.truth(),
{
}

} // verus!
