//! The abstract syntax of formulas and their textual form.

use vstd::prelude::*;
use crate::label::Label;

verus! {

/// A formula of linear temporal logic as a mathematical tree, with labels of
/// type `L` at its atomic propositions.
pub enum FormulaView<L> {
    AtomicProposition(L),
    Boolean(bool),
    Conjunction(Box<FormulaView<L>>, Box<FormulaView<L>>),
    Disjunction(Box<FormulaView<L>>, Box<FormulaView<L>>),
    Negation(Box<FormulaView<L>>),
    Eventually(Box<FormulaView<L>>),
    Always(Box<FormulaView<L>>),
}

/// The text `true`.
pub open spec fn true_text() -> Seq<char> {
    seq!['t', 'r', 'u', 'e']
}

/// The text `false`.
pub open spec fn false_text() -> Seq<char> {
    seq!['f', 'a', 'l', 's', 'e']
}

/// The sign between the operands of a conjunction: U+2227 between two spaces.
pub open spec fn conjunction_sign() -> Seq<char> {
    seq![' ', '\u{2227}', ' ']
}

/// The sign between the operands of a disjunction: U+2228 between two spaces.
pub open spec fn disjunction_sign() -> Seq<char> {
    seq![' ', '\u{2228}', ' ']
}

/// The sign before a negated formula: U+00AC.
pub open spec fn negation_sign() -> Seq<char> {
    seq!['\u{ac}']
}

/// The sign before a formula that holds at some future point.
pub open spec fn eventually_sign() -> Seq<char> {
    seq!['<', '>']
}

/// The sign before a formula that holds at every future point.
pub open spec fn always_sign() -> Seq<char> {
    seq!['[', ']']
}

impl<L: Label> FormulaView<L> {
    /// The textual form of the formula: binary connectives are bracketed,
    /// unary operators are written before their operand without brackets.
    pub open spec fn render(self) -> Seq<char>
        decreases self,
    {
        match self {
            FormulaView::AtomicProposition(var) => var.text(),
            FormulaView::Boolean(value) => if value {
                true_text()
            } else {
                false_text()
            },
            FormulaView::Conjunction(lhs, rhs) => seq!['('] + lhs.render() + conjunction_sign()
                + rhs.render() + seq![')'],
            FormulaView::Disjunction(lhs, rhs) => seq!['('] + lhs.render() + disjunction_sign()
                + rhs.render() + seq![')'],
            FormulaView::Negation(inner) => negation_sign() + inner.render(),
            FormulaView::Eventually(inner) => eventually_sign() + inner.render(),
            FormulaView::Always(inner) => always_sign() + inner.render(),
        }
    }

    /// The truth that the formula reports: that of a constant, and `false`
    /// for every other formula.
    pub open spec fn truth(self) -> bool {
        match self {
            FormulaView::Boolean(value) => value,
            _ => false,
        }
    }
}

} // verus!
