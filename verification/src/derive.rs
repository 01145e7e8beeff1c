//! The generators: one per selection. Each validates the declaration's shape
//! and then writes its impl block, or fails without writing anything.

use vstd::prelude::*;
use crate::selection::{outcome, Selection};
use crate::shape::{Declaration, Shape, UnsupportedShape};
use crate::template::{
    from_impl, inner_impl, new_impl, operator_impl, render_from, render_inner, render_new,
    render_operator, Operator,
};

verus! {

/// Validates the shape of `ast` and hands a newtype's name and the declared
/// type of its field to `f`, whose result it returns as it is. For any other
/// shape `f` is not called, and the failure carries the label `t`.
pub fn for_new_type<F>(ast: &Declaration, t: &str, f: F) -> (r: Result<String, UnsupportedShape>)
    where F: Fn(&String, &String) -> String
    requires
        ast@.is_newtype() ==> f.requires((&ast.name, &ast.shape->Positional_0@[0])),
    ensures
        ast@.is_newtype() ==> (r matches Ok(out) && f.ensures(
            (&ast.name, &ast.shape->Positional_0@[0]),
            out,
        )),
        !ast@.is_newtype() ==> (r matches Err(e) && e.label@ == t@),
{
    match &ast.shape {
        Shape::Positional(fields) if fields.len() == 1 => Ok(f(&ast.name, &fields[0])),
        _ => Err(UnsupportedShape { label: String::from_str(t) }),
    }
}

/// Writes the impl block with the associated function `new`, which wraps its
/// argument.
pub fn derive_new(input: &Declaration) -> (r: Result<String, UnsupportedShape>)
    ensures
        outcome(r) == Selection::New.expansion(input@),
{
    let template = |name: &String, ty: &String| -> (text: String)
        ensures
            text@ == new_impl(name@, ty@),
        { render_new(name.as_str(), ty.as_str()) };
    for_new_type(input, "New", template)
}

/// Writes the impl block with the accessor `inner`, which lends the wrapped
/// value.
pub fn derive_inner(input: &Declaration) -> (r: Result<String, UnsupportedShape>)
    ensures
        outcome(r) == Selection::Inner.expansion(input@),
{
    let template = |name: &String, ty: &String| -> (text: String)
        ensures
            text@ == inner_impl(name@, ty@),
        { render_inner(name.as_str(), ty.as_str()) };
    for_new_type(input, "Inner", template)
}

/// Writes the impl of `std::convert::From` that wraps a bare inner value.
pub fn derive_from(input: &Declaration) -> (r: Result<String, UnsupportedShape>)
    ensures
        outcome(r) == Selection::From.expansion(input@),
{
    let template = |name: &String, ty: &String| -> (text: String)
        ensures
            text@ == from_impl(name@, ty@),
        { render_from(name.as_str(), ty.as_str()) };
    for_new_type(input, "From", template)
}

/// Writes the impl of `std::ops::Add` with another wrapper on the right-hand side.
pub fn derive_add(input: &Declaration) -> (r: Result<String, UnsupportedShape>)
    ensures
        outcome(r) == Selection::Add.expansion(input@),
{
    let template = |name: &String, ty: &String| -> (text: String)
        ensures
            text@ == operator_impl(Operator::Add, false, false, name@, ty@),
        { render_operator(Operator::Add, false, false, name.as_str(), ty.as_str()) };
    for_new_type(input, "Add", template)
}

/// Writes the impl of `std::ops::AddAssign` with another wrapper on the right-hand side.
pub fn derive_add_assign(input: &Declaration) -> (r: Result<String, UnsupportedShape>)
    ensures
        outcome(r) == Selection::AddAssign.expansion(input@),
{
    let template = |name: &String, ty: &String| -> (text: String)
        ensures
            text@ == operator_impl(Operator::Add, false, true, name@, ty@),
        { render_operator(Operator::Add, false, true, name.as_str(), ty.as_str()) };
    for_new_type(input, "AddAssign", template)
}

/// Writes the impl of `std::ops::Sub` with another wrapper on the right-hand side.
pub fn derive_sub(input: &Declaration) -> (r: Result<String, UnsupportedShape>)
    ensures
        outcome(r) == Selection::Sub.expansion(input@),
{
    let template = |name: &String, ty: &String| -> (text: String)
        ensures
            text@ == operator_impl(Operator::Sub, false, false, name@, ty@),
        { render_operator(Operator::Sub, false, false, name.as_str(), ty.as_str()) };
    for_new_type(input, "Sub", template)
}

/// Writes the impl of `std::ops::SubAssign` with another wrapper on the right-hand side.
pub fn derive_sub_assign(input: &Declaration) -> (r: Result<String, UnsupportedShape>)
    ensures
        outcome(r) == Selection::SubAssign.expansion(input@),
{
    let template = |name: &String, ty: &String| -> (text: String)
        ensures
            text@ == operator_impl(Operator::Sub, false, true, name@, ty@),
        { render_operator(Operator::Sub, false, true, name.as_str(), ty.as_str()) };
    for_new_type(input, "SubAssign", template)
}

/// Writes the impl of `std::ops::Mul` with another wrapper on the right-hand side.
pub fn derive_mul(input: &Declaration) -> (r: Result<String, UnsupportedShape>)
    ensures
        outcome(r) == Selection::Mul.expansion(input@),
{
    let template = |name: &String, ty: &String| -> (text: String)
        ensures
            text@ == operator_impl(Operator::Mul, false, false, name@, ty@),
        { render_operator(Operator::Mul, false, false, name.as_str(), ty.as_str()) };
    for_new_type(input, "Mul", template)
}

/// Writes the impl of `std::ops::MulAssign` with another wrapper on the right-hand side.
pub fn derive_mul_assign(input: &Declaration) -> (r: Result<String, UnsupportedShape>)
    ensures
        outcome(r) == Selection::MulAssign.expansion(input@),
{
    let template = |name: &String, ty: &String| -> (text: String)
        ensures
            text@ == operator_impl(Operator::Mul, false, true, name@, ty@),
        { render_operator(Operator::Mul, false, true, name.as_str(), ty.as_str()) };
    for_new_type(input, "MulAssign", template)
}

/// Writes the impl of `std::ops::Mul` with a bare inner value on the right-hand side.
pub fn derive_mul_scalar(input: &Declaration) -> (r: Result<String, UnsupportedShape>)
    ensures
        outcome(r) == Selection::MulScalar.expansion(input@),
{
    let template = |name: &String, ty: &String| -> (text: String)
        ensures
            text@ == operator_impl(Operator::Mul, true, false, name@, ty@),
        { render_operator(Operator::Mul, true, false, name.as_str(), ty.as_str()) };
    for_new_type(input, "MulScalar", template)
}

/// Writes the impl of `std::ops::MulAssign` with a bare inner value on the right-hand side.
pub fn derive_mul_assign_scalar(input: &Declaration) -> (r: Result<String, UnsupportedShape>)
    ensures
        outcome(r) == Selection::MulAssignScalar.expansion(input@),
{
    let template = |name: &String, ty: &String| -> (text: String)
        ensures
            text@ == operator_impl(Operator::Mul, true, true, name@, ty@),
        { render_operator(Operator::Mul, true, true, name.as_str(), ty.as_str()) };
    for_new_type(input, "MulAssignScalar", template)
}

/// Writes the impl of `std::ops::Div` with another wrapper on the right-hand side.
pub fn derive_div(input: &Declaration) -> (r: Result<String, UnsupportedShape>)
    ensures
        outcome(r) == Selection::Div.expansion(input@),
{
    let template = |name: &String, ty: &String| -> (text: String)
        ensures
            text@ == operator_impl(Operator::Div, false, false, name@, ty@),
        { render_operator(Operator::Div, false, false, name.as_str(), ty.as_str()) };
    for_new_type(input, "Div", template)
}

/// Writes the impl of `std::ops::DivAssign` with another wrapper on the right-hand side.
pub fn derive_div_assign(input: &Declaration) -> (r: Result<String, UnsupportedShape>)
    ensures
        outcome(r) == Selection::DivAssign.expansion(input@),
{
    let template = |name: &String, ty: &String| -> (text: String)
        ensures
            text@ == operator_impl(Operator::Div, false, true, name@, ty@),
        { render_operator(Operator::Div, false, true, name.as_str(), ty.as_str()) };
    for_new_type(input, "DivAssign", template)
}

/// Writes the impl of `std::ops::Div` with a bare inner value on the right-hand side.
pub fn derive_div_scalar(input: &Declaration) -> (r: Result<String, UnsupportedShape>)
    ensures
        outcome(r) == Selection::DivScalar.expansion(input@),
{
    let template = |name: &String, ty: &String| -> (text: String)
        ensures
            text@ == operator_impl(Operator::Div, true, false, name@, ty@),
        { render_operator(Operator::Div, true, false, name.as_str(), ty.as_str()) };
    for_new_type(input, "DivScalar", template)
}

/// Writes the impl of `std::ops::DivAssign` with a bare inner value on the right-hand side.
pub fn derive_div_assign_scalar(input: &Declaration) -> (r: Result<String, UnsupportedShape>)
    ensures
        outcome(r) == Selection::DivAssignScalar.expansion(input@),
{
    let template = |name: &String, ty: &String| -> (text: String)
        ensures
            text@ == operator_impl(Operator::Div, true, true, name@, ty@),
        { render_operator(Operator::Div, true, true, name.as_str(), ty.as_str()) };
    for_new_type(input, "DivAssignScalar", template)
}

/// Writes the impl of `std::ops::Rem` with another wrapper on the right-hand side.
pub fn derive_rem(input: &Declaration) -> (r: Result<String, UnsupportedShape>)
    ensures
        outcome(r) == Selection::Rem.expansion(input@),
{
    let template = |name: &String, ty: &String| -> (text: String)
        ensures
            text@ == operator_impl(Operator::Rem, false, false, name@, ty@),
        { render_operator(Operator::Rem, false, false, name.as_str(), ty.as_str()) };
    for_new_type(input, "Rem", template)
}

/// Writes the impl of `std::ops::RemAssign` with another wrapper on the right-hand side.
pub fn derive_rem_assign(input: &Declaration) -> (r: Result<String, UnsupportedShape>)
    ensures
        outcome(r) == Selection::RemAssign.expansion(input@),
{
    let template = |name: &String, ty: &String| -> (text: String)
        ensures
            text@ == operator_impl(Operator::Rem, false, true, name@, ty@),
        { render_operator(Operator::Rem, false, true, name.as_str(), ty.as_str()) };
    for_new_type(input, "RemAssign", template)
}

/// Writes the impl of `std::ops::Rem` with a bare inner value on the right-hand side.
pub fn derive_rem_scalar(input: &Declaration) -> (r: Result<String, UnsupportedShape>)
    ensures
        outcome(r) == Selection::RemScalar.expansion(input@),
{
    let template = |name: &String, ty: &String| -> (text: String)
        ensures
            text@ == operator_impl(Operator::Rem, true, false, name@, ty@),
        { render_operator(Operator::Rem, true, false, name.as_str(), ty.as_str()) };
    for_new_type(input, "RemScalar", template)
}

/// Writes the impl of `std::ops::RemAssign` with a bare inner value on the right-hand side.
pub fn derive_rem_assign_scalar(input: &Declaration) -> (r: Result<String, UnsupportedShape>)
    ensures
        outcome(r) == Selection::RemAssignScalar.expansion(input@),
{
    let template = |name: &String, ty: &String| -> (text: String)
        ensures
            text@ == operator_impl(Operator::Rem, true, true, name@, ty@),
        { render_operator(Operator::Rem, true, true, name.as_str(), ty.as_str()) };
    for_new_type(input, "RemAssignScalar", template)
}

} // verus!
