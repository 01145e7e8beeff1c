//! Declarations and selections as source text.

use vstd::prelude::*;
use quote::ToTokens;
use crate::selection::{outcome, Selection};
use crate::shape::{Declaration, DeclarationView, Shape, UnsupportedShape};

verus! {

/// What `syn::parse_str::<syn::DeriveInput>` makes of a source text, reduced to
/// the declared name and the field structure: `None` where it reports a parse
/// error. `syn` and `proc-macro2` are built without their `proc-macro`
/// feature, so that the text is always lexed, and a field's type always
/// printed, by `proc-macro2` itself, whether or not a compiler is running.
pub uninterp spec fn parsed_declaration(text: Seq<char>) -> Option<DeclarationView>;

/// Calls `syn::parse_str::<syn::DeriveInput>`. On a parse error the result is
/// `None`. Otherwise it holds the declaration's identifier as text and the
/// variant of its data; for a tuple struct it holds each field's type, in the
/// order of declaration, as `quote::ToTokens` prints it. The contract claims
/// that the result is [`parsed_declaration`] of the text, and nothing of what
/// that is.
#[verifier::external_body]
fn parse_declaration(text: &str) -> (r: Option<Declaration>)
    ensures
        r.is_some() == parsed_declaration(text@).is_some(),
        r matches Some(decl) ==> parsed_declaration(text@) == Some(decl@),
{
    let ast = syn::parse_str::<syn::DeriveInput>(text).ok()?;
    let shape = match ast.data {
        syn::Data::Struct(data) => match data.fields {
            syn::Fields::Unnamed(fields) => Shape::Positional(
                fields.unnamed.iter().map(|f| f.ty.to_token_stream().to_string()).collect(),
            ),
            syn::Fields::Named(_) => Shape::Named,
            syn::Fields::Unit => Shape::Unit,
        },
        syn::Data::Enum(_) => Shape::Enum,
        syn::Data::Union(_) => Shape::Union,
    };
    Some(Declaration { name: ast.ident.to_string(), shape })
}

/// What a selection gives on a source text: nothing where the text is no
/// declaration, and otherwise what it gives on the declaration read from it.
pub open spec fn source_expansion(selection: Selection, text: Seq<char>) -> Option<
    Result<Seq<char>, Seq<char>>,
> {
    match parsed_declaration(text) {
        Some(decl) => Some(selection.expansion(decl)),
        None => None,
    }
}

/// A result of [`expand_source`] as mathematical values.
pub open spec fn source_outcome(r: Option<Result<String, UnsupportedShape>>) -> Option<
    Result<Seq<char>, Seq<char>>,
> {
    match r {
        Some(done) => Some(outcome(done)),
        None => None,
    }
}

/// Reads a declaration from its source text and runs the selection's
/// generator on it.
pub fn expand_source(selection: Selection, text: &str) -> (r: Option<
    Result<String, UnsupportedShape>,
>)
    ensures
        source_outcome(r) == source_expansion(selection, text@),
{
    match parse_declaration(text) {
        Some(decl) => Some(selection.expand(&decl)),
        None => None,
    }
}

} // verus!
