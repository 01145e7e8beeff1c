//! The text of the impl blocks, as functions of the wrapper's name and of the
//! declared type of its field.

use vstd::prelude::*;

verus! {

/// The five arithmetic operators that a wrapper can delegate.
#[derive(Clone, Copy, Debug, PartialEq, Eq, Structural)]
pub enum Operator {
    Add,
    Sub,
    Mul,
    Div,
    Rem,
}

impl Operator {
    /// The operator's trait in `std::ops`, for the value-returning form.
    pub open spec fn trait_name(self) -> Seq<char> {
        match self {
            Operator::Add => "Add"@,
            Operator::Sub => "Sub"@,
            Operator::Mul => "Mul"@,
            Operator::Div => "Div"@,
            Operator::Rem => "Rem"@,
        }
    }

    /// The trait's method, for the value-returning form.
    pub open spec fn method_name(self) -> Seq<char> {
        match self {
            Operator::Add => "add"@,
            Operator::Sub => "sub"@,
            Operator::Mul => "mul"@,
            Operator::Div => "div"@,
            Operator::Rem => "rem"@,
        }
    }

    /// The operator as it is written between its operands.
    pub open spec fn symbol(self) -> Seq<char> {
        match self {
            Operator::Add => "+"@,
            Operator::Sub => "-"@,
            Operator::Mul => "*"@,
            Operator::Div => "/"@,
            Operator::Rem => "%"@,
        }
    }

    /// The trait's name as text.
    pub fn trait_text(self) -> (text: &'static str)
        ensures
            text@ == self.trait_name(),
    {
        match self {
            Operator::Add => "Add",
            Operator::Sub => "Sub",
            Operator::Mul => "Mul",
            Operator::Div => "Div",
            Operator::Rem => "Rem",
        }
    }

    /// The method's name as text.
    pub fn method_text(self) -> (text: &'static str)
        ensures
            text@ == self.method_name(),
    {
        match self {
            Operator::Add => "add",
            Operator::Sub => "sub",
            Operator::Mul => "mul",
            Operator::Div => "div",
            Operator::Rem => "rem",
        }
    }

    /// The symbol as text.
    pub fn symbol_text(self) -> (text: &'static str)
        ensures
            text@ == self.symbol(),
    {
        match self {
            Operator::Add => "+",
            Operator::Sub => "-",
            Operator::Mul => "*",
            Operator::Div => "/",
            Operator::Rem => "%",
        }
    }
}

/// The impl block with the associated function `new`.
pub open spec fn new_impl(name: Seq<char>, ty: Seq<char>) -> Seq<char> {
    "impl "@ + name + " { pub fn new(value: "@ + ty + ") -> Self { Self(value) } }"@
}

/// The impl block with the accessor `inner`.
pub open spec fn inner_impl(name: Seq<char>, ty: Seq<char>) -> Seq<char> {
    "impl "@ + name + " { pub fn inner(&self) -> &"@ + ty + " { &self.0 } }"@
}

/// The impl of `std::convert::From` from the field's type.
pub open spec fn from_impl(name: Seq<char>, ty: Seq<char>) -> Seq<char> {
    "impl std::convert::From<"@ + ty + "> for "@ + name + " { fn from(value: "@ + ty
        + ") -> Self { Self(value) } }"@
}

/// The path of the operator's trait: in `std::ops`, with `Assign` behind its
/// name for the in-place form, and with the field's type as its parameter
/// where the right-hand operand is a bare inner value.
pub open spec fn trait_path(op: Operator, scalar: bool, assign: bool, ty: Seq<char>) -> Seq<char> {
    let plain = if assign {
        "std::ops::"@ + op.trait_name() + "Assign"@
    } else {
        "std::ops::"@ + op.trait_name()
    };
    if scalar {
        plain + "<"@ + ty + ">"@
    } else {
        plain
    }
}

/// The type of the right-hand operand.
pub open spec fn operand_type(scalar: bool, ty: Seq<char>) -> Seq<char> {
    if scalar {
        ty
    } else {
        "Self"@
    }
}

/// The inner value of the right-hand operand `rhs`.
pub open spec fn operand_value(scalar: bool) -> Seq<char> {
    if scalar {
        "rhs"@
    } else {
        "rhs.0"@
    }
}

/// The impl of an operator's trait. By value it wraps what the inner type's
/// operator gives; in place it hands the right-hand inner value to the inner
/// type's own in-place operator.
pub open spec fn operator_impl(
    op: Operator,
    scalar: bool,
    assign: bool,
    name: Seq<char>,
    ty: Seq<char>,
) -> Seq<char> {
    if assign {
        "impl "@ + trait_path(op, scalar, assign, ty) + " for "@ + name + " { fn "@
            + op.method_name() + "_assign(&mut self, rhs: "@ + operand_type(scalar, ty)
            + ") { self.0 "@ + op.symbol() + "= "@ + operand_value(scalar) + "; } }"@
    } else {
        "impl "@ + trait_path(op, scalar, assign, ty) + " for "@ + name
            + " { type Output = Self; fn "@ + op.method_name() + "(self, rhs: "@ + operand_type(
            scalar,
            ty,
        ) + ") -> Self::Output { Self(self.0 "@ + op.symbol() + " "@ + operand_value(scalar)
            + ") } }"@
    }
}

/// Writes [`new_impl`].
pub fn render_new(name: &str, ty: &str) -> (text: String)
    ensures
        text@ == new_impl(name@, ty@),
{
    let mut text = String::from_str("impl ");
    text.append(name);
    text.append(" { pub fn new(value: ");
    text.append(ty);
    text.append(") -> Self { Self(value) } }");
    text
}

/// Writes [`inner_impl`].
pub fn render_inner(name: &str, ty: &str) -> (text: String)
    ensures
        text@ == inner_impl(name@, ty@),
{
    let mut text = String::from_str("impl ");
    text.append(name);
    text.append(" { pub fn inner(&self) -> &");
    text.append(ty);
    text.append(" { &self.0 } }");
    text
}

/// Writes [`from_impl`].
pub fn render_from(name: &str, ty: &str) -> (text: String)
    ensures
        text@ == from_impl(name@, ty@),
{
    let mut text = String::from_str("impl std::convert::From<");
    text.append(ty);
    text.append("> for ");
    text.append(name);
    text.append(" { fn from(value: ");
    text.append(ty);
    text.append(") -> Self { Self(value) } }");
    text
}

/// Writes [`trait_path`].
pub fn render_trait_path(op: Operator, scalar: bool, assign: bool, ty: &str) -> (text: String)
    ensures
        text@ == trait_path(op, scalar, assign, ty@),
{
    let mut text = String::from_str("std::ops::");
    text.append(op.trait_text());
    if assign {
        text.append("Assign");
    }
    if scalar {
        text.append("<");
        text.append(ty);
        text.append(">");
    }
    text
}

/// Writes [`operator_impl`].
pub fn render_operator(op: Operator, scalar: bool, assign: bool, name: &str, ty: &str) -> (text:
    String)
    ensures
        text@ == operator_impl(op, scalar, assign, name@, ty@),
{
    let path = render_trait_path(op, scalar, assign, ty);
    let operand_ty = if scalar {
        ty
    } else {
        "Self"
    };
    let operand = if scalar {
        "rhs"
    } else {
        "rhs.0"
    };
    let mut text = String::from_str("impl ");
    text.append(path.as_str());
    text.append(" for ");
    text.append(name);
    if assign {
        text.append(" { fn ");
        text.append(op.method_text());
        text.append("_assign(&mut self, rhs: ");
        text.append(operand_ty);
        text.append(") { self.0 ");
        text.append(op.symbol_text());
        text.append("= ");
        text.append(operand);
        text.append("; } }");
    } else {
        text.append(" { type Output = Self; fn ");
        text.append(op.method_text());
        text.append("(self, rhs: ");
        text.append(operand_ty);
        text.append(") -> Self::Output { Self(self.0 ");
        text.append(op.symbol_text());
        text.append(" ");
        text.append(operand);
        text.append(") } }");
    }
    text
}

} // verus!
