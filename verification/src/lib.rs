//! Delegating impls for newtypes.
//!
//! A newtype is a tuple struct with exactly one field. For such a declaration
//! this crate writes the impl blocks that let the wrapper behave as its inner
//! type does: a constructor, an accessor, a conversion, and the arithmetic
//! operators, each against another wrapper or against a bare inner value, by
//! value or in place. For any other declaration every generator fails with
//! the one diagnostic and writes nothing.
//!
//! * [`shape`] describes a type declaration and says which shape is accepted.
//! * [`template`] holds the text of every impl block.
//! * [`derive`] holds one generator per selection; each validates first.
//! * [`selection`] names the selections and runs the generator of each.
//! * [`source`] reads the declaration from source text.
//! * [`wrapper`] states what the impl blocks mean.

pub mod derive;
pub mod selection;
pub mod shape;
pub mod source;
pub mod template;
pub mod wrapper;

pub use crate::derive::{
    derive_add, derive_add_assign, derive_div, derive_div_assign, derive_div_assign_scalar,
    derive_div_scalar, derive_from, derive_inner, derive_mul, derive_mul_assign,
    derive_mul_assign_scalar, derive_mul_scalar, derive_new, derive_rem, derive_rem_assign,
    derive_rem_assign_scalar, derive_rem_scalar, derive_sub, derive_sub_assign, for_new_type,
};
pub use crate::selection::Selection;
pub use crate::shape::{Declaration, Shape, UnsupportedShape};
pub use crate::source::expand_source;
pub use crate::template::Operator;
pub use crate::wrapper::Newtype;
