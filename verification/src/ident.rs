//! Identifiers.

use vstd::prelude::*;

verus! {

/// Whether a string is an identifier: a start character (an `XID_Start`
/// character or `_`) followed by continue characters (`XID_Continue`
/// characters, `_` or `-`).
pub uninterp spec fn is_identifier(text: Seq<char>) -> bool;

/// Calls `typst_syntax::is_ident`, which decides from the characters of the
/// string alone whether it is an identifier.
#[verifier::external_body]
pub(crate) fn is_ident(text: &str) -> (valid: bool)
    ensures
        valid == is_identifier(text@),
{
    typst_syntax::is_ident(text)
}

/// An identifier of the language.
#[derive(Debug, PartialEq, Eq, Hash)]
pub struct Ident(pub String);

impl View for Ident {
    type V = Seq<char>;

    open spec fn view(&self) -> Seq<char> {
        self.0@
    }
}

impl Clone for Ident {
    fn clone(&self) -> (copy: Self)
        ensures
            copy == *self,
    {
        Ident(self.0.clone())
    }
}

impl Ident {
    /// Makes an identifier of a string, if the string is one.
    pub fn new(ident: &str) -> (made: Option<Self>)
        ensures
            made is Some <==> is_identifier(ident@),
            made matches Some(id) ==> id@ == ident@,
    {
        if is_ident(ident) {
            Some(Ident(ident.to_string()))
        } else {
            None
        }
    }

    /// The identifier as a string slice.
    pub fn as_str(&self) -> (text: &str)
        ensures
            text@ == self@,
    {
        self.0.as_str()
    }
}

} // verus!
