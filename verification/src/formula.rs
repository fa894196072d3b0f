//! Formula trees: one node type for each kind of formula, the sum of them,
//! and what every one of them can do.

use core::marker::PhantomData;
use vstd::prelude::*;
use vstd::string::StringExecFns;
use crate::label::Label;
use crate::syntax::{
    always_sign, conjunction_sign, disjunction_sign, eventually_sign, false_text, negation_sign,
    true_text, FormulaView,
};

verus! {

/// The label type of the integer-labelled formulas, the only ones with
/// constants.
pub type AtomType = i32;

/// A formula that can be copied, with everything below it, into a tree of its
/// own.
pub trait CloneBoxLTL<L: Label>: View<V = FormulaView<L>> {
    /// A deep copy of the formula. The copy shares nothing with `self`.
    fn clone_box(&self) -> (copy: Box<Formula<L>>)
        ensures
            copy@ == self@,
            copy@.render() == self@.render(),
    ;
}

/// What every formula can do besides being copied.
pub trait LTLFormula<L: Label>: CloneBoxLTL<L> {
    /// The formula's textual form.
    fn to_string(&self) -> (text: String)
        ensures
            text@ == self@.render(),
    ;

    /// The truth of a constant; `false` for every other formula, whatever
    /// stands below it.
    fn is_true(&self) -> (truth: bool)
        ensures
            truth == self@.truth(),
    ;
}

/// An indivisible fact, known by its label.
pub struct AtomicProposition<L> {
    var: L,
}

impl<L: Label> AtomicProposition<L> {
    /// The label.
    pub closed spec fn var(&self) -> L {
        self.var
    }
}

impl<L: Label> View for AtomicProposition<L> {
    type V = FormulaView<L>;

    open spec fn view(&self) -> FormulaView<L> {
        FormulaView::AtomicProposition(self.var())
    }
}

impl<L: Label> LTLFormula<L> for AtomicProposition<L> {
    fn to_string(&self) -> (text: String) {
        self.var.to_text()
    }

    fn is_true(&self) -> (truth: bool)
        ensures
            !truth,
    {
        false
    }
}

impl<L: Label> Clone for AtomicProposition<L> {
    fn clone(&self) -> (copy: Self)
        ensures
            copy@ == self@,
    {
        AtomicProposition { var: self.var.duplicate() }
    }
}

impl<L: Label> CloneBoxLTL<L> for AtomicProposition<L> {
    fn clone_box(&self) -> (copy: Box<Formula<L>>) {
        Box::new(Formula::AtomicProposition(self.clone()))
    }
}

/// A literal truth value. A constant is of the label type of the formula that
/// holds it, and only integer-labelled constants can be made.
pub struct Boolean<L> {
    value: bool,
    label: PhantomData<L>,
}

impl<L: Label> Boolean<L> {
    /// The truth value.
    pub closed spec fn value(&self) -> bool {
        self.value
    }
}

impl<L: Label> View for Boolean<L> {
    type V = FormulaView<L>;

    open spec fn view(&self) -> FormulaView<L> {
        FormulaView::Boolean(self.value())
    }
}

impl<L: Label> LTLFormula<L> for Boolean<L> {
    fn to_string(&self) -> (text: String) {
        proof {
            reveal_strlit("true");
            reveal_strlit("false");
            assert("true"@ =~= true_text());
            assert("false"@ =~= false_text());
            assert(self@.render() == if self.value {
                true_text()
            } else {
                false_text()
            });
        }
        if self.value {
            String::from_str("true")
        } else {
            String::from_str("false")
        }
    }

    fn is_true(&self) -> (truth: bool)
        ensures
            truth == self.value(),
    {
        self.value
    }
}

impl<L: Label> Clone for Boolean<L> {
    fn clone(&self) -> (copy: Self)
        ensures
            copy@ == self@,
    {
        Boolean { value: self.value, label: PhantomData }
    }
}

impl<L: Label> CloneBoxLTL<L> for Boolean<L> {
    fn clone_box(&self) -> (copy: Box<Formula<L>>) {
        Box::new(Formula::Boolean(self.clone()))
    }
}

/// Both operands hold.
pub struct Conjunction<L> {
    lhs: Box<Formula<L>>,
    rhs: Box<Formula<L>>,
}

impl<L: Label> Conjunction<L> {
    /// The left operand.
    pub closed spec fn lhs(&self) -> Formula<L> {
        *self.lhs
    }

    /// The right operand.
    pub closed spec fn rhs(&self) -> Formula<L> {
        *self.rhs
    }
}

impl<L: Label> View for Conjunction<L> {
    type V = FormulaView<L>;

    open spec fn view(&self) -> FormulaView<L>
        decreases self,
    {
        FormulaView::Conjunction(Box::new(self.lhs().view()), Box::new(self.rhs().view()))
    }
}

impl<L: Label> LTLFormula<L> for Conjunction<L> {
    fn to_string(&self) -> (text: String)
        decreases self,
    {
        proof {
            reveal_strlit("(");
            reveal_strlit(" \u{2227} ");
            reveal_strlit(")");
            assert("("@ =~= seq!['(']);
            assert(" \u{2227} "@ =~= conjunction_sign());
            assert(")"@ =~= seq![')']);
        }
        let mut text = String::from_str("(");
        text.append(self.lhs.to_string().as_str());
        text.append(" \u{2227} ");
        text.append(self.rhs.to_string().as_str());
        text.append(")");
        text
    }

    fn is_true(&self) -> (truth: bool)
        ensures
            !truth,
    {
        false
    }
}

impl<L: Label> Clone for Conjunction<L> {
    fn clone(&self) -> (copy: Self)
        ensures
            copy@ == self@,
        decreases self,
    {
        Conjunction { lhs: self.lhs.clone_box(), rhs: self.rhs.clone_box() }
    }
}

impl<L: Label> CloneBoxLTL<L> for Conjunction<L> {
    fn clone_box(&self) -> (copy: Box<Formula<L>>)
        decreases self,
    {
        Box::new(Formula::Conjunction(self.clone()))
    }
}

/// At least one operand holds.
pub struct Disjunction<L> {
    lhs: Box<Formula<L>>,
    rhs: Box<Formula<L>>,
}

impl<L: Label> Disjunction<L> {
    /// The left operand.
    pub closed spec fn lhs(&self) -> Formula<L> {
        *self.lhs
    }

    /// The right operand.
    pub closed spec fn rhs(&self) -> Formula<L> {
        *self.rhs
    }
}

impl<L: Label> View for Disjunction<L> {
    type V = FormulaView<L>;

    open spec fn view(&self) -> FormulaView<L>
        decreases self,
    {
        FormulaView::Disjunction(Box::new(self.lhs().view()), Box::new(self.rhs().view()))
    }
}

impl<L: Label> LTLFormula<L> for Disjunction<L> {
    fn to_string(&self) -> (text: String)
        decreases self,
    {
        proof {
            reveal_strlit("(");
            reveal_strlit(" \u{2228} ");
            reveal_strlit(")");
            assert("("@ =~= seq!['(']);
            assert(" \u{2228} "@ =~= disjunction_sign());
            assert(")"@ =~= seq![')']);
        }
        let mut text = String::from_str("(");
        text.append(self.lhs.to_string().as_str());
        text.append(" \u{2228} ");
        text.append(self.rhs.to_string().as_str());
        text.append(")");
        text
    }

    fn is_true(&self) -> (truth: bool)
        ensures
            !truth,
    {
        false
    }
}

impl<L: Label> Clone for Disjunction<L> {
    fn clone(&self) -> (copy: Self)
        ensures
            copy@ == self@,
        decreases self,
    {
        Disjunction { lhs: self.lhs.clone_box(), rhs: self.rhs.clone_box() }
    }
}

impl<L: Label> CloneBoxLTL<L> for Disjunction<L> {
    fn clone_box(&self) -> (copy: Box<Formula<L>>)
        decreases self,
    {
        Box::new(Formula::Disjunction(self.clone()))
    }
}

/// The operand does not hold.
pub struct Negation<L> {
    inner: Box<Formula<L>>,
}

impl<L: Label> Negation<L> {
    /// The operand.
    pub closed spec fn inner(&self) -> Formula<L> {
        *self.inner
    }
}

impl<L: Label> View for Negation<L> {
    type V = FormulaView<L>;

    open spec fn view(&self) -> FormulaView<L>
        decreases self,
    {
        FormulaView::Negation(Box::new(self.inner().view()))
    }
}

impl<L: Label> LTLFormula<L> for Negation<L> {
    fn to_string(&self) -> (text: String)
        decreases self,
    {
        proof {
            reveal_strlit("\u{ac}");
            assert("\u{ac}"@ =~= negation_sign());
        }
        let mut text = String::from_str("\u{ac}");
        text.append(self.inner.to_string().as_str());
        text
    }

    fn is_true(&self) -> (truth: bool)
        ensures
            !truth,
    {
        false
    }
}

impl<L: Label> Clone for Negation<L> {
    fn clone(&self) -> (copy: Self)
        ensures
            copy@ == self@,
        decreases self,
    {
        Negation { inner: self.inner.clone_box() }
    }
}

impl<L: Label> CloneBoxLTL<L> for Negation<L> {
    fn clone_box(&self) -> (copy: Box<Formula<L>>)
        decreases self,
    {
        Box::new(Formula::Negation(self.clone()))
    }
}

/// The operand holds at some future point.
pub struct Eventually<L> {
    inner: Box<Formula<L>>,
}

impl<L: Label> Eventually<L> {
    /// The operand.
    pub closed spec fn inner(&self) -> Formula<L> {
        *self.inner
    }
}

impl<L: Label> View for Eventually<L> {
    type V = FormulaView<L>;

    open spec fn view(&self) -> FormulaView<L>
        decreases self,
    {
        FormulaView::Eventually(Box::new(self.inner().view()))
    }
}

impl<L: Label> LTLFormula<L> for Eventually<L> {
    fn to_string(&self) -> (text: String)
        decreases self,
    {
        proof {
            reveal_strlit("<>");
            assert("<>"@ =~= eventually_sign());
        }
        let mut text = String::from_str("<>");
        text.append(self.inner.to_string().as_str());
        text
    }

    fn is_true(&self) -> (truth: bool)
        ensures
            !truth,
    {
        false
    }
}

impl<L: Label> Clone for Eventually<L> {
    fn clone(&self) -> (copy: Self)
        ensures
            copy@ == self@,
        decreases self,
    {
        Eventually { inner: self.inner.clone_box() }
    }
}

impl<L: Label> CloneBoxLTL<L> for Eventually<L> {
    fn clone_box(&self) -> (copy: Box<Formula<L>>)
        decreases self,
    {
        Box::new(Formula::Eventually(self.clone()))
    }
}

/// The operand holds at every future point.
pub struct Always<L> {
    inner: Box<Formula<L>>,
}

impl<L: Label> Always<L> {
    /// The operand.
    pub closed spec fn inner(&self) -> Formula<L> {
        *self.inner
    }
}

impl<L: Label> View for Always<L> {
    type V = FormulaView<L>;

    open spec fn view(&self) -> FormulaView<L>
        decreases self,
    {
        FormulaView::Always(Box::new(self.inner().view()))
    }
}

impl<L: Label> LTLFormula<L> for Always<L> {
    fn to_string(&self) -> (text: String)
        decreases self,
    {
        proof {
            reveal_strlit("[]");
            assert("[]"@ =~= always_sign());
        }
        let mut text = String::from_str("[]");
        text.append(self.inner.to_string().as_str());
        text
    }

    fn is_true(&self) -> (truth: bool)
        ensures
            !truth,
    {
        false
    }
}

impl<L: Label> Clone for Always<L> {
    fn clone(&self) -> (copy: Self)
        ensures
            copy@ == self@,
        decreases self,
    {
        Always { inner: self.inner.clone_box() }
    }
}

impl<L: Label> CloneBoxLTL<L> for Always<L> {
    fn clone_box(&self) -> (copy: Box<Formula<L>>)
        decreases self,
    {
        Box::new(Formula::Always(self.clone()))
    }
}

/// A formula of any kind. A node owns its operands, so a formula is a tree.
pub enum Formula<L> {
    AtomicProposition(AtomicProposition<L>),
    Boolean(Boolean<L>),
    Conjunction(Conjunction<L>),
    Disjunction(Disjunction<L>),
    Negation(Negation<L>),
    Eventually(Eventually<L>),
    Always(Always<L>),
}

impl<L: Label> View for Formula<L> {
    type V = FormulaView<L>;

    open spec fn view(&self) -> FormulaView<L>
        decreases self,
    {
        match self {
            Formula::AtomicProposition(node) => node.view(),
            Formula::Boolean(node) => node.view(),
            Formula::Conjunction(node) => node.view(),
            Formula::Disjunction(node) => node.view(),
            Formula::Negation(node) => node.view(),
            Formula::Eventually(node) => node.view(),
            Formula::Always(node) => node.view(),
        }
    }
}

impl<L: Label> LTLFormula<L> for Formula<L> {
    fn to_string(&self) -> (text: String)
        decreases self,
    {
        match self {
            Formula::AtomicProposition(node) => node.to_string(),
            Formula::Boolean(node) => node.to_string(),
            Formula::Conjunction(node) => node.to_string(),
            Formula::Disjunction(node) => node.to_string(),
            Formula::Negation(node) => node.to_string(),
            Formula::Eventually(node) => node.to_string(),
            Formula::Always(node) => node.to_string(),
        }
    }

    fn is_true(&self) -> (truth: bool)
        ensures
            truth ==> self is Boolean,
    {
        match self {
            Formula::AtomicProposition(node) => node.is_true(),
            Formula::Boolean(node) => node.is_true(),
            Formula::Conjunction(node) => node.is_true(),
            Formula::Disjunction(node) => node.is_true(),
            Formula::Negation(node) => node.is_true(),
            Formula::Eventually(node) => node.is_true(),
            Formula::Always(node) => node.is_true(),
        }
    }
}

impl<L: Label> Clone for Formula<L> {
    fn clone(&self) -> (copy: Self)
        ensures
            copy@ == self@,
        decreases self, 0nat,
    {
        match self {
            Formula::AtomicProposition(node) => Formula::AtomicProposition(node.clone()),
            Formula::Boolean(node) => Formula::Boolean(node.clone()),
            Formula::Conjunction(node) => Formula::Conjunction(node.clone()),
            Formula::Disjunction(node) => Formula::Disjunction(node.clone()),
            Formula::Negation(node) => Formula::Negation(node.clone()),
            Formula::Eventually(node) => Formula::Eventually(node.clone()),
            Formula::Always(node) => Formula::Always(node.clone()),
        }
    }
}

impl<L: Label> CloneBoxLTL<L> for Formula<L> {
    fn clone_box(&self) -> (copy: Box<Formula<L>>)
        decreases self, 1nat,
    {
        Box::new(self.clone())
    }
}

/// The atomic proposition with the label `var`.
pub fn atomic<L: Label>(var: L) -> (formula: Box<Formula<L>>)
    ensures
        formula@ == FormulaView::AtomicProposition(var),
        formula@.render() == var.text(),
        !formula@.truth(),
{
    Box::new(Formula::AtomicProposition(AtomicProposition { var }))
}

/// The constant `value`.
pub fn boolean(value: bool) -> (formula: Box<Formula<AtomType>>)
    ensures
        formula@ == FormulaView::<AtomType>::Boolean(value),
        formula@.render() == if value {
            true_text()
        } else {
            false_text()
        },
        formula@.truth() == value,
{
    Box::new(Formula::Boolean(Boolean { value, label: PhantomData }))
}

/// The conjunction of copies of `lhs` and `rhs`, which stay as they are and
/// stay the caller's.
pub fn conjunction<L: Label>(
    lhs: &Box<Formula<L>>,
    rhs: &Box<Formula<L>>,
) -> (formula: Box<Formula<L>>)
    ensures
        formula@ == FormulaView::Conjunction(Box::new(lhs@), Box::new(rhs@)),
        formula@.render() == seq!['('] + lhs@.render() + conjunction_sign() + rhs@.render()
            + seq![')'],
        !formula@.truth(),
{
    Box::new(Formula::Conjunction(Conjunction { lhs: lhs.clone_box(), rhs: rhs.clone_box() }))
}

/// The disjunction of copies of `lhs` and `rhs`, which stay as they are and
/// stay the caller's.
pub fn disjunction<L: Label>(
    lhs: &Box<Formula<L>>,
    rhs: &Box<Formula<L>>,
) -> (formula: Box<Formula<L>>)
    ensures
        formula@ == FormulaView::Disjunction(Box::new(lhs@), Box::new(rhs@)),
        formula@.render() == seq!['('] + lhs@.render() + disjunction_sign() + rhs@.render()
            + seq![')'],
        !formula@.truth(),
{
    Box::new(Formula::Disjunction(Disjunction { lhs: lhs.clone_box(), rhs: rhs.clone_box() }))
}

/// The negation of a copy of `inner`, which stays as it is and stays the
/// caller's.
pub fn negation<L: Label>(inner: &Box<Formula<L>>) -> (formula: Box<Formula<L>>)
    ensures
        formula@ == FormulaView::Negation(Box::new(inner@)),
        formula@.render() == negation_sign() + inner@.render(),
        !formula@.truth(),
{
    Box::new(Formula::Negation(Negation { inner: inner.clone_box() }))
}

/// The formula that a copy of `inner` holds at some future point; `inner`
/// stays as it is and stays the caller's.
pub fn eventually<L: Label>(inner: &Box<Formula<L>>) -> (formula: Box<Formula<L>>)
    ensures
        formula@ == FormulaView::Eventually(Box::new(inner@)),
        formula@.render() == eventually_sign() + inner@.render(),
        !formula@.truth(),
{
    Box::new(Formula::Eventually(Eventually { inner: inner.clone_box() }))
}

/// The formula that a copy of `inner` holds at every future point; `inner`
/// stays as it is and stays the caller's.
pub fn always<L: Label>(inner: &Box<Formula<L>>) -> (formula: Box<Formula<L>>)
    ensures
        formula@ == FormulaView::Always(Box::new(inner@)),
        formula@.render() == always_sign() + inner@.render(),
        !formula@.truth(),
{
    Box::new(Formula::Always(Always { inner: inner.clone_box() }))
}

/// Whether `formula` is the constant `true`. No operand is looked at: a
/// connective or an operator is not true, whatever stands below it.
pub fn is_true(formula: &Box<Formula<AtomType>>) -> (truth: bool)
    ensures
        truth == formula@.truth(),
        truth == (formula@ == FormulaView::<AtomType>::Boolean(true)),
{
    formula.is_true()
}

/// The textual form of `formula`.
pub fn render<L: Label>(formula: &Box<Formula<L>>) -> (text: String)
    ensures
        text@ == formula@.render(),
{
    formula.to_string()
}

/// Ends the life of `formula`: the tree is freed, once, with everything below
/// it. The handle is taken by value, so no later call can name it.
pub fn release<L: Label>(formula: Box<Formula<L>>) {
}

} // verus!
