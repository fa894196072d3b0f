//! Formulas of linear temporal logic: building them, copying them and writing
//! them out.
//!
//! A formula is a tree. Its leaves are atomic propositions, each known by a
//! label, and, among integer-labelled formulas, constants; its inner nodes are
//! the connectives of boolean logic and the temporal operators. A caller holds
//! a formula through an owning handle, `Box<Formula<L>>`. Composing formulas
//! copies the operands, so every handle stays the sole owner of its tree.

pub mod decimal;
pub mod formula;
pub mod label;
pub mod laws;
pub mod reading;
pub mod syntax;

pub use crate::formula::{
    always, atomic, boolean, conjunction, disjunction, eventually, is_true, negation, release,
    render, Always, AtomType, AtomicProposition, Boolean, CloneBoxLTL, Conjunction, Disjunction,
    Eventually, Formula, LTLFormula, Negation,
};
pub use crate::label::Label;
pub use crate::syntax::FormulaView;
