//! The parts of the syntax tree that an import reads.

use vstd::prelude::*;
use vstd::string::StrSliceExecFns;
use crate::file::{file_stem, file_stem_of};
use crate::ident::{is_ident, is_identifier, Ident};
use crate::package::{package_spec_syntax, PackageSpec};
use crate::span::Spanned;

verus! {

/// An expression, as far as an import tells expressions apart.
#[derive(Debug, PartialEq, Eq)]
pub enum Expr {
    /// An identifier: `ident`.
    Ident(Ident),
    /// A string literal: `"string"`.
    Str(String),
    /// A field access: `target.field`. Only the field is kept.
    FieldAccess(Ident),
    /// Any other expression: its value is known only once it is computed.
    Computed,
}

impl Expr {
    /// A natural-language name of the kind of this expression.
    pub open spec fn spec_name(self) -> Seq<char> {
        match self {
            Expr::Ident(_) => "identifier"@,
            Expr::Str(_) => "string"@,
            Expr::FieldAccess(_) => "field access"@,
            Expr::Computed => "expression"@,
        }
    }

    /// A natural-language name of the kind of this expression, such as
    /// "identifier".
    pub fn name(&self) -> (name: &'static str)
        ensures
            name@ == self.spec_name(),
    {
        match self {
            Expr::Ident(_) => "identifier",
            Expr::Str(_) => "string",
            Expr::FieldAccess(_) => "field access",
            Expr::Computed => "expression",
        }
    }
}

/// A code block of a document.
#[derive(Debug, PartialEq, Eq)]
pub struct Code {
    /// The language that the code is written in, if the block names one.
    pub lang: Option<Spanned<Ident>>,
    /// The lines of the code.
    pub lines: Vec<String>,
    /// Whether the code stands as a block of its own.
    pub block: bool,
}

/// One item of an import list: a dotted path, optionally renamed.
#[derive(Debug, PartialEq, Eq)]
pub struct ImportItem {
    /// The segments of the path: `a.b.c`.
    pub path: Vec<Spanned<Ident>>,
    /// The name behind `as`, if the item is renamed.
    pub new_name: Option<Spanned<Ident>>,
}

impl ImportItem {
    /// The name that the item is bound to: the name behind `as`, or else
    /// the last segment of the path.
    pub open spec fn bound_name(self) -> Seq<char>
        recommends
            self.path@.len() > 0,
    {
        match self.new_name {
            Some(name) => name.v@,
            None => self.path@.last().v@,
        }
    }

    /// Whether the item is renamed to the name that its path ends in.
    pub open spec fn is_redundant(self) -> bool
        recommends
            self.path@.len() > 0,
    {
        self.new_name matches Some(name) && name.v@ == self.path@.last().v@
    }
}

/// What an import takes from its source.
#[derive(Debug, PartialEq, Eq)]
pub enum Imports {
    /// Everything: `*`.
    Wildcard,
    /// The listed items: `a, b.c, d as e`.
    Items(Vec<ImportItem>),
}

/// An import: `import source as name: items`.
#[derive(Debug, PartialEq, Eq)]
pub struct ModuleImport {
    /// The expression that gives the source.
    pub source: Spanned<Expr>,
    /// The name behind `as`, if the source is renamed.
    pub new_name: Option<Spanned<Ident>>,
    /// What is taken from the source, if the import says so.
    pub imports: Option<Imports>,
}

/// An include: `include source`.
#[derive(Debug, PartialEq, Eq)]
pub struct ModuleInclude {
    /// The expression that gives the source.
    pub source: Spanned<Expr>,
}

/// Why an import has no name of its own for its module.
#[derive(Debug, Clone, Copy, PartialEq, Eq, Structural, Hash)]
pub enum BareImportError {
    /// The source is computed: no name can be read off it.
    Dynamic,
    /// The source is a path whose file stem is no identifier.
    PathInvalid,
    /// The source is no package specification.
    PackageInvalid,
}

/// Whether a text starts with `@`, the mark of a package specification.
pub open spec fn is_package_text(text: Seq<char>) -> bool {
    text.len() > 0 && text[0] == '@'
}

/// Whether a text starts with `@`, the mark of a package specification.
pub fn starts_with_sigil(text: &str) -> (marked: bool)
    ensures
        marked == is_package_text(text@),
{
    text.unicode_len() > 0 && text.get_char(0) == '@'
}

/// The name that an import binds its module to when it neither renames it
/// nor lists items: an identifier names itself, a field access is named by
/// its field, a package specification by the name of the package, and a
/// path by the stem of its file, if that is an identifier.
pub open spec fn bare_name_of(source: Expr) -> Result<Seq<char>, BareImportError> {
    match source {
        Expr::Ident(ident) => Ok(ident@),
        Expr::FieldAccess(field) => Ok(field@),
        Expr::Str(text) => if is_package_text(text@) {
            match package_spec_syntax(text@) {
                Ok(spec) => if is_identifier(spec.name) {
                    Ok(spec.name)
                } else {
                    Err(BareImportError::PathInvalid)
                },
                Err(_) => Err(BareImportError::PackageInvalid),
            }
        } else {
            match file_stem_of(text@) {
                Some(stem) => if is_identifier(stem) {
                    Ok(stem)
                } else {
                    Err(BareImportError::PathInvalid)
                },
                None => Err(BareImportError::PathInvalid),
            }
        },
        Expr::Computed => Err(BareImportError::Dynamic),
    }
}

/// A name, or the reason why there is none, as contracts see them.
pub open spec fn name_outcome(name: Result<String, BareImportError>) -> Result<
    Seq<char>,
    BareImportError,
> {
    match name {
        Ok(name) => Ok(name@),
        Err(error) => Err(error),
    }
}

impl ModuleImport {
    /// The name to bind the module to when the import neither renames it
    /// nor lists items.
    pub fn bare_name(&self) -> (name: Result<String, BareImportError>)
        ensures
            name_outcome(name) == bare_name_of(self.source.v),
    {
        match &self.source.v {
            Expr::Ident(ident) => Ok(ident.0.clone()),
            Expr::FieldAccess(field) => Ok(field.0.clone()),
            Expr::Str(text) => {
                let found = if starts_with_sigil(text.as_str()) {
                    match PackageSpec::parse(text.as_str()) {
                        Ok(spec) => Ok(spec.name),
                        Err(_) => Err(BareImportError::PackageInvalid),
                    }
                } else {
                    match file_stem(text.as_str()) {
                        Some(stem) => Ok(stem),
                        None => Err(BareImportError::PathInvalid),
                    }
                };
                match found {
                    Ok(name) => if is_ident(name.as_str()) {
                        Ok(name)
                    } else {
                        Err(BareImportError::PathInvalid)
                    },
                    Err(error) => Err(error),
                }
            },
            Expr::Computed => Err(BareImportError::Dynamic),
        }
    }
}

} // verus!
