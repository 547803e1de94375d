//! File identities and paths.

use vstd::prelude::*;
use crate::diag::{Diagnostic, ErrorKind, SourceDiagnostic};
use crate::package::{PackageSpec, PackageSpecView};
use crate::span::Span;

verus! {

/// The path as a virtual path: taken from the root, without `.` and with
/// `..` resolved as far as the root allows.
pub uninterp spec fn normalized_path(path: Seq<char>) -> Seq<char>;

/// Calls `typst_syntax::VirtualPath::new` and hands back the rooted path of
/// the result as text. The virtual path is made of the components of the
/// given path alone; the file system is not touched.
#[verifier::external_body]
fn virtual_path(path: &str) -> (normal: String)
    ensures
        normal@ == normalized_path(path@),
{
    typst_syntax::VirtualPath::new(path).as_rooted_path().to_string_lossy().into_owned()
}

/// The virtual path that `path` names when it is written in the file at the
/// virtual path `base`: `path` is resolved against the directory of `base`.
pub uninterp spec fn joined_path(base: Seq<char>, path: Seq<char>) -> Seq<char>;

/// Calls `typst_syntax::VirtualPath::join` on the virtual path of `base` and
/// hands back the rooted path of the result as text. The result is made of
/// the components of the two paths alone; the file system is not touched.
#[verifier::external_body]
fn join_path(base: &str, path: &str) -> (joined: String)
    ensures
        joined@ == joined_path(base@, path@),
{
    typst_syntax::VirtualPath::new(base).join(path).as_rooted_path().to_string_lossy().into_owned()
}

/// The last component of a path without its extension, if the path has a
/// last component.
pub uninterp spec fn file_stem_of(path: Seq<char>) -> Option<Seq<char>>;

/// Calls `std::path::Path::file_stem`, which takes the file name of the
/// path and cuts off what follows its last dot. The result depends on the
/// path alone; the file system is not touched.
#[verifier::external_body]
pub(crate) fn file_stem(path: &str) -> (stem: Option<String>)
    ensures
        stem is Some <==> file_stem_of(path@) is Some,
        stem matches Some(s) ==> file_stem_of(path@) == Some(s@),
{
    std::path::Path::new(path).file_stem().map(|stem| stem.to_string_lossy().into_owned())
}

/// A file identity as contracts see it.
pub struct FileIdentityView {
    pub package: Option<PackageSpecView>,
    pub path: Seq<char>,
}

/// Identifies a source file: the package it belongs to, if any, and its
/// virtual path inside the package or the project.
#[derive(Debug, PartialEq, Eq, Hash)]
pub struct FileIdentity {
    /// The package that the file belongs to.
    pub package: Option<PackageSpec>,
    /// The virtual path of the file.
    pub path: String,
}

impl View for FileIdentity {
    type V = FileIdentityView;

    open spec fn view(&self) -> FileIdentityView {
        FileIdentityView {
            package: match self.package {
                Some(spec) => Some(spec@),
                None => None,
            },
            path: self.path@,
        }
    }
}

impl Clone for FileIdentity {
    fn clone(&self) -> (copy: Self)
        ensures
            copy == *self,
    {
        FileIdentity {
            package: match &self.package {
                Some(spec) => Some(spec.clone()),
                None => None,
            },
            path: self.path.clone(),
        }
    }
}

/// The name of the manifest file of a package.
pub open spec fn manifest_name() -> Seq<char> {
    "typst.toml"@
}

impl FileIdentity {
    /// The identity of the file at `path` in a package or, without one, in
    /// the project.
    pub fn new(package: Option<PackageSpec>, path: &str) -> (id: Self)
        ensures
            id.package == package,
            id.path@ == normalized_path(path@),
    {
        FileIdentity { package, path: virtual_path(path) }
    }

    /// The identity of the manifest of a package.
    pub fn manifest(spec: PackageSpec) -> (id: Self)
        ensures
            id.package == Some(spec),
            id.path@ == normalized_path(manifest_name()),
    {
        FileIdentity::new(Some(spec), "typst.toml")
    }

    /// The identity of the file that `path` names when it is written in
    /// this file: a file of the same package, at the path resolved against
    /// the directory of this file.
    pub fn join(&self, path: &str) -> (id: Self)
        ensures
            id@.package == self@.package,
            id@.path == joined_path(self@.path, path@),
    {
        FileIdentity {
            package: match &self.package {
                Some(spec) => Some(spec.clone()),
                None => None,
            },
            path: join_path(self.path.as_str(), path),
        }
    }

    /// Whether two identities name the same file.
    pub fn same(&self, other: &FileIdentity) -> (same: bool)
        ensures
            same == (self@ == other@),
    {
        let packages = match (&self.package, &other.package) {
            (Some(a), Some(b)) => a.same(b),
            (None, None) => true,
            _ => false,
        };
        packages && self.path == other.path
    }
}

/// Why a file could not be loaded.
#[derive(Debug, Clone, Copy, PartialEq, Eq, Structural, Hash)]
pub enum FileErrorKind {
    /// There is no file at the path.
    NotFound,
    /// The file may not be read.
    AccessDenied,
    /// The path names a directory.
    IsDirectory,
    /// The file is no source file.
    NotSource,
    /// The file is not valid UTF-8.
    InvalidUtf8,
    /// The package of the file could not be loaded.
    Package,
    /// Anything else.
    Other,
}

/// A failure of the loader, with the message that describes it.
#[derive(Debug, PartialEq, Eq)]
pub struct FileError {
    /// Why the file could not be loaded.
    pub kind: FileErrorKind,
    /// The message that describes the failure.
    pub message: String,
}

/// The error for a file that could not be loaded. Where access was denied,
/// two hints say how to move the project root.
pub open spec fn file_load(kind: FileErrorKind, message: Seq<char>, span: Span) -> Diagnostic {
    let error = Diagnostic::new(ErrorKind::FileLoad, span, message);
    if kind == FileErrorKind::AccessDenied {
        error.hinted("cannot read file outside of project root"@).hinted(
            "you can adjust the project root with the --root argument"@,
        )
    } else {
        error
    }
}

/// Builds [`file_load`].
pub fn file_load_error(error: FileError, span: Span) -> (made: SourceDiagnostic)
    ensures
        made@ == file_load(error.kind, error.message@, span),
{
    let made = SourceDiagnostic::error(ErrorKind::FileLoad, span, error.message);
    match error.kind {
        FileErrorKind::AccessDenied => made.with_hint(
            "cannot read file outside of project root",
        ).with_hint("you can adjust the project root with the --root argument"),
        _ => made,
    }
}

} // verus!
