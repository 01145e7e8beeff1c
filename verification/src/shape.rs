//! The shape of a type declaration, and the one shape that is accepted.

use vstd::prelude::*;

verus! {

/// How a declaration stores its data.
#[derive(Clone, Debug, PartialEq, Eq)]
pub enum Shape {
    /// A tuple struct; the declared types of its fields, in order.
    Positional(Vec<String>),
    /// A struct with named fields.
    Named,
    /// A struct without fields or brackets.
    Unit,
    /// An enum.
    Enum,
    /// A union.
    Union,
}

/// A type declaration as the generators read it.
#[derive(Clone, Debug, PartialEq, Eq)]
pub struct Declaration {
    /// The declared name.
    pub name: String,
    /// The field structure.
    pub shape: Shape,
}

/// The mathematical value of a [`Shape`].
pub ghost enum ShapeView {
    Positional(Seq<Seq<char>>),
    Named,
    Unit,
    Enum,
    Union,
}

/// The mathematical value of a [`Declaration`].
pub ghost struct DeclarationView {
    pub name: Seq<char>,
    pub shape: ShapeView,
}

impl View for Shape {
    type V = ShapeView;

    open spec fn view(&self) -> ShapeView {
        match *self {
            Shape::Positional(fields) => ShapeView::Positional(
                Seq::new(fields@.len(), |i: int| fields@[i]@),
            ),
            Shape::Named => ShapeView::Named,
            Shape::Unit => ShapeView::Unit,
            Shape::Enum => ShapeView::Enum,
            Shape::Union => ShapeView::Union,
        }
    }
}

impl View for Declaration {
    type V = DeclarationView;

    open spec fn view(&self) -> DeclarationView {
        DeclarationView { name: self.name@, shape: self.shape@ }
    }
}

impl DeclarationView {
    /// A newtype has exactly one field, and that field is positional.
    pub open spec fn is_newtype(self) -> bool {
        self.shape matches ShapeView::Positional(fields) && fields.len() == 1
    }

    /// The declared type of a newtype's only field.
    pub open spec fn inner_type(self) -> Seq<char>
        recommends
            self.is_newtype(),
    {
        self.shape->Positional_0[0]
    }
}

/// The one failure: a generator was applied to a declaration that is no newtype.
#[derive(Clone, Debug, PartialEq, Eq)]
pub struct UnsupportedShape {
    /// The label of the generator that was misapplied.
    pub label: String,
}

/// The text of the diagnostic for the generator with the given label.
pub open spec fn diagnostic(label: Seq<char>) -> Seq<char> {
    "derive("@ + label + ") is only defined for newtypes (single-field positional wrappers)"@
}

impl UnsupportedShape {
    /// The diagnostic that the build fails with.
    pub fn message(&self) -> (text: String)
        ensures
            text@ == diagnostic(self.label@),
    {
        let mut text = String::from_str("derive(");
        text.append(self.label.as_str());
        text.append(") is only defined for newtypes (single-field positional wrappers)");
        text
    }
}

impl Declaration {
    /// Whether this declaration is a newtype.
    pub fn is_newtype(&self) -> (yes: bool)
        ensures
            yes == self@.is_newtype(),
    {
        match &self.shape {
            Shape::Positional(fields) => fields.len() == 1,
            _ => false,
        }
    }
}

} // verus!
