//! The selections by name, and the generator that each one runs.

use vstd::prelude::*;
use crate::derive::{
    derive_add, derive_add_assign, derive_div, derive_div_assign, derive_div_assign_scalar,
    derive_div_scalar, derive_from, derive_inner, derive_mul, derive_mul_assign,
    derive_mul_assign_scalar, derive_mul_scalar, derive_new, derive_rem, derive_rem_assign,
    derive_rem_assign_scalar, derive_rem_scalar, derive_sub, derive_sub_assign,
};
use crate::shape::{Declaration, DeclarationView, UnsupportedShape};
use crate::template::{from_impl, inner_impl, new_impl, operator_impl, Operator};

verus! {

/// What can be selected for a declaration. Each selection runs one generator,
/// independently of the others.
#[derive(Clone, Copy, Debug, PartialEq, Eq, Structural)]
pub enum Selection {
    New,
    Inner,
    From,
    Add,
    AddAssign,
    Sub,
    SubAssign,
    Mul,
    MulAssign,
    MulScalar,
    MulAssignScalar,
    Div,
    DivAssign,
    DivScalar,
    DivAssignScalar,
    Rem,
    RemAssign,
    RemScalar,
    RemAssignScalar,
}

impl Selection {
    /// The selection's name, which is also its label in a diagnostic.
    pub open spec fn label(self) -> Seq<char> {
        match self {
            Selection::New => "New"@,
            Selection::Inner => "Inner"@,
            Selection::From => "From"@,
            Selection::Add => "Add"@,
            Selection::AddAssign => "AddAssign"@,
            Selection::Sub => "Sub"@,
            Selection::SubAssign => "SubAssign"@,
            Selection::Mul => "Mul"@,
            Selection::MulAssign => "MulAssign"@,
            Selection::MulScalar => "MulScalar"@,
            Selection::MulAssignScalar => "MulAssignScalar"@,
            Selection::Div => "Div"@,
            Selection::DivAssign => "DivAssign"@,
            Selection::DivScalar => "DivScalar"@,
            Selection::DivAssignScalar => "DivAssignScalar"@,
            Selection::Rem => "Rem"@,
            Selection::RemAssign => "RemAssign"@,
            Selection::RemScalar => "RemScalar"@,
            Selection::RemAssignScalar => "RemAssignScalar"@,
        }
    }

    /// The impl block that the selection stands for, on a wrapper called
    /// `name` around a field of the declared type `ty`.
    pub open spec fn template(self, name: Seq<char>, ty: Seq<char>) -> Seq<char> {
        match self {
            Selection::New => new_impl(name, ty),
            Selection::Inner => inner_impl(name, ty),
            Selection::From => from_impl(name, ty),
            Selection::Add => operator_impl(Operator::Add, false, false, name, ty),
            Selection::AddAssign => operator_impl(Operator::Add, false, true, name, ty),
            Selection::Sub => operator_impl(Operator::Sub, false, false, name, ty),
            Selection::SubAssign => operator_impl(Operator::Sub, false, true, name, ty),
            Selection::Mul => operator_impl(Operator::Mul, false, false, name, ty),
            Selection::MulAssign => operator_impl(Operator::Mul, false, true, name, ty),
            Selection::MulScalar => operator_impl(Operator::Mul, true, false, name, ty),
            Selection::MulAssignScalar => operator_impl(Operator::Mul, true, true, name, ty),
            Selection::Div => operator_impl(Operator::Div, false, false, name, ty),
            Selection::DivAssign => operator_impl(Operator::Div, false, true, name, ty),
            Selection::DivScalar => operator_impl(Operator::Div, true, false, name, ty),
            Selection::DivAssignScalar => operator_impl(Operator::Div, true, true, name, ty),
            Selection::Rem => operator_impl(Operator::Rem, false, false, name, ty),
            Selection::RemAssign => operator_impl(Operator::Rem, false, true, name, ty),
            Selection::RemScalar => operator_impl(Operator::Rem, true, false, name, ty),
            Selection::RemAssignScalar => operator_impl(Operator::Rem, true, true, name, ty),
        }
    }

    /// What the selection gives on a declaration: the impl block for a
    /// newtype, and otherwise the label to fail with.
    pub open spec fn expansion(self, decl: DeclarationView) -> Result<Seq<char>, Seq<char>> {
        if decl.is_newtype() {
            Ok(self.template(decl.name, decl.inner_type()))
        } else {
            Err(self.label())
        }
    }

    /// The label as text.
    pub fn label_text(self) -> (text: &'static str)
        ensures
            text@ == self.label(),
    {
        match self {
            Selection::New => "New",
            Selection::Inner => "Inner",
            Selection::From => "From",
            Selection::Add => "Add",
            Selection::AddAssign => "AddAssign",
            Selection::Sub => "Sub",
            Selection::SubAssign => "SubAssign",
            Selection::Mul => "Mul",
            Selection::MulAssign => "MulAssign",
            Selection::MulScalar => "MulScalar",
            Selection::MulAssignScalar => "MulAssignScalar",
            Selection::Div => "Div",
            Selection::DivAssign => "DivAssign",
            Selection::DivScalar => "DivScalar",
            Selection::DivAssignScalar => "DivAssignScalar",
            Selection::Rem => "Rem",
            Selection::RemAssign => "RemAssign",
            Selection::RemScalar => "RemScalar",
            Selection::RemAssignScalar => "RemAssignScalar",
        }
    }

    /// Runs the selection's generator on `input`.
    pub fn expand(self, input: &Declaration) -> (r: Result<String, UnsupportedShape>)
        ensures
            outcome(r) == self.expansion(input@),
    {
        match self {
            Selection::New => derive_new(input),
            Selection::Inner => derive_inner(input),
            Selection::From => derive_from(input),
            Selection::Add => derive_add(input),
            Selection::AddAssign => derive_add_assign(input),
            Selection::Sub => derive_sub(input),
            Selection::SubAssign => derive_sub_assign(input),
            Selection::Mul => derive_mul(input),
            Selection::MulAssign => derive_mul_assign(input),
            Selection::MulScalar => derive_mul_scalar(input),
            Selection::MulAssignScalar => derive_mul_assign_scalar(input),
            Selection::Div => derive_div(input),
            Selection::DivAssign => derive_div_assign(input),
            Selection::DivScalar => derive_div_scalar(input),
            Selection::DivAssignScalar => derive_div_assign_scalar(input),
            Selection::Rem => derive_rem(input),
            Selection::RemAssign => derive_rem_assign(input),
            Selection::RemScalar => derive_rem_scalar(input),
            Selection::RemAssignScalar => derive_rem_assign_scalar(input),
        }
    }
}

/// A generator's result as mathematical values: the text written, or the label
/// that the failure carries.
pub open spec fn outcome(r: Result<String, UnsupportedShape>) -> Result<Seq<char>, Seq<char>> {
    match r {
        Ok(text) => Ok(text@),
        Err(e) => Err(e.label@),
    }
}

/// No generator writes anything for a declaration that is not a newtype:
/// whatever was selected, the outcome is the failure with that selection's
/// label.
pub proof fn lemma_other_shapes_are_rejected(selection: Selection, decl: DeclarationView)
    requires
        !decl.is_newtype(),
    ensures
        selection.expansion(decl) == Err::<Seq<char>, Seq<char>>(selection.label()),
{
}

} // verus!
