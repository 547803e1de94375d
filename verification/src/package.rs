//! Package specifications and manifests.

use typst_syntax::package;
use vstd::prelude::*;

verus! {

/// The version of a package: three numbers.
#[derive(Debug, Clone, Copy, PartialEq, Eq, Structural, Hash)]
pub struct PackageVersion {
    /// The major version.
    pub major: u32,
    /// The minor version.
    pub minor: u32,
    /// The patch version.
    pub patch: u32,
}

impl PackageVersion {
    /// The version `major.minor.patch`.
    pub fn new(major: u32, minor: u32, patch: u32) -> (version: Self)
        ensures
            version == (PackageVersion { major, minor, patch }),
    {
        PackageVersion { major, minor, patch }
    }
}

/// A bound on a version, of which the later numbers may be left out.
#[derive(Debug, Clone, Copy, PartialEq, Eq, Structural, Hash)]
pub struct VersionBound {
    /// The major version.
    pub major: u32,
    /// The minor version, if the bound has one.
    pub minor: Option<u32>,
    /// The patch version, if the bound has one.
    pub patch: Option<u32>,
}

impl VersionBound {
    /// The bound with the given numbers.
    pub fn new(major: u32, minor: Option<u32>, patch: Option<u32>) -> (bound: Self)
        ensures
            bound == (VersionBound { major, minor, patch }),
    {
        VersionBound { major, minor, patch }
    }
}

/// A package specification as contracts see it.
pub struct PackageSpecView {
    pub namespace: Seq<char>,
    pub name: Seq<char>,
    pub version: PackageVersion,
}

/// Identifies a package: `@namespace/name:version`.
#[derive(Debug, PartialEq, Eq, Hash)]
pub struct PackageSpec {
    /// The namespace the package lives in.
    pub namespace: String,
    /// The name of the package within its namespace.
    pub name: String,
    /// The version of the package.
    pub version: PackageVersion,
}

impl View for PackageSpec {
    type V = PackageSpecView;

    open spec fn view(&self) -> PackageSpecView {
        PackageSpecView { namespace: self.namespace@, name: self.name@, version: self.version }
    }
}

impl Clone for PackageSpec {
    fn clone(&self) -> (copy: Self)
        ensures
            copy == *self,
    {
        PackageSpec {
            namespace: self.namespace.clone(),
            name: self.name.clone(),
            version: self.version,
        }
    }
}

/// What parsing a text as a package specification gives: the specification,
/// or the message that says why the text is none.
pub uninterp spec fn package_spec_syntax(text: Seq<char>) -> Result<PackageSpecView, Seq<char>>;

/// A parsed specification, or the message of the failure, as contracts see
/// them.
pub open spec fn spec_outcome(parsed: Result<PackageSpec, String>) -> Result<
    PackageSpecView,
    Seq<char>,
> {
    match parsed {
        Ok(spec) => Ok(spec@),
        Err(message) => Err(message@),
    }
}

/// Calls the `from_str` of `typst_syntax::package::PackageSpec`, which reads
/// `@namespace/name:version` from the text or says in a message why it
/// cannot. The result depends on the text alone.
#[verifier::external_body]
fn parse_package_spec(text: &str) -> (parsed: Result<PackageSpec, String>)
    ensures
        spec_outcome(parsed) == package_spec_syntax(text@),
{
    match text.parse::<package::PackageSpec>() {
        Ok(spec) => Ok(PackageSpec {
            namespace: spec.namespace.to_string(),
            name: spec.name.to_string(),
            version: PackageVersion::new(spec.version.major, spec.version.minor, spec.version.patch),
        }),
        Err(message) => Err(message.to_string()),
    }
}

impl PackageSpec {
    /// Whether two specifications name the same package.
    pub fn same(&self, other: &PackageSpec) -> (same: bool)
        ensures
            same == (self@ == other@),
    {
        self.namespace == other.namespace && self.name == other.name && self.version
            == other.version
    }

    /// Reads a specification of the form `@namespace/name:version`.
    pub fn parse(text: &str) -> (parsed: Result<PackageSpec, String>)
        ensures
            spec_outcome(parsed) == package_spec_syntax(text@),
    {
        parse_package_spec(text)
    }
}

/// A package manifest as contracts see it.
pub struct ManifestView {
    pub name: Seq<char>,
    pub version: PackageVersion,
    pub entrypoint: Seq<char>,
    pub compiler: Option<VersionBound>,
}

/// What the `package` table of a manifest declares, as far as imports read
/// it.
#[derive(Debug, PartialEq, Eq)]
pub struct PackageManifest {
    /// The name of the package.
    pub name: String,
    /// The version of the package.
    pub version: PackageVersion,
    /// The path of the file that importing the package evaluates, relative
    /// to the manifest.
    pub entrypoint: String,
    /// The oldest compiler that the package works with.
    pub compiler: Option<VersionBound>,
}

impl View for PackageManifest {
    type V = ManifestView;

    open spec fn view(&self) -> ManifestView {
        ManifestView {
            name: self.name@,
            version: self.version,
            entrypoint: self.entrypoint@,
            compiler: self.compiler,
        }
    }
}

/// What parsing a text as a manifest gives: the manifest, or the message
/// that says why the text is none.
pub uninterp spec fn manifest_syntax(text: Seq<char>) -> Result<ManifestView, Seq<char>>;

/// A parsed manifest, or the message of the failure, as contracts see them.
pub open spec fn manifest_outcome(parsed: Result<PackageManifest, String>) -> Result<
    ManifestView,
    Seq<char>,
> {
    match parsed {
        Ok(manifest) => Ok(manifest@),
        Err(message) => Err(message@),
    }
}

/// Calls `toml::from_str` for a `typst_syntax::package::PackageManifest`,
/// which reads the manifest from a TOML document or fails with an error
/// whose `message` says why. The result depends on the text alone.
#[verifier::external_body]
fn parse_manifest(text: &str) -> (parsed: Result<PackageManifest, String>)
    ensures
        manifest_outcome(parsed) == manifest_syntax(text@),
{
    match toml::from_str::<package::PackageManifest>(text) {
        Ok(manifest) => Ok(PackageManifest {
            name: manifest.package.name.to_string(),
            version: PackageVersion::new(
                manifest.package.version.major,
                manifest.package.version.minor,
                manifest.package.version.patch,
            ),
            entrypoint: manifest.package.entrypoint.to_string(),
            compiler: manifest.package.compiler.map(|b| VersionBound::new(b.major, b.minor, b.patch)),
        }),
        Err(error) => Err(error.message().to_string()),
    }
}

/// What is wrong with a manifest that was found for a specification: the
/// message that says so, or nothing.
pub uninterp spec fn manifest_mismatch(manifest: ManifestView, spec: PackageSpecView) -> Option<
    Seq<char>,
>;

/// A message, if there is one, as contracts see it.
pub open spec fn message_view(message: Option<String>) -> Option<Seq<char>> {
    match message {
        Some(message) => Some(message@),
        None => None,
    }
}

/// Calls `validate` of `typst_syntax::package::PackageManifest`. It rejects
/// a manifest whose name or version differs from that of the specification,
/// and one that asks for a newer compiler than the one in use. A manifest
/// with the name and the version of the specification that asks for no
/// compiler is accepted.
#[verifier::external_body]
fn check_manifest(manifest: &PackageManifest, spec: &PackageSpec) -> (mismatch: Option<String>)
    ensures
        message_view(mismatch) == manifest_mismatch(manifest@, spec@),
        manifest@.name != spec@.name ==> mismatch is Some,
        manifest@.version != spec@.version ==> mismatch is Some,
        manifest@.name == spec@.name && manifest@.version == spec@.version && manifest@.compiler
            is None ==> mismatch is None,
{
    let (m, s) = (manifest.version, spec.version);
    let version = package::PackageVersion { major: m.major, minor: m.minor, patch: m.patch };
    let mut info = package::PackageInfo::new(&*manifest.name, version, &*manifest.entrypoint);
    info.compiler = manifest.compiler.map(
        |b| package::VersionBound { major: b.major, minor: b.minor, patch: b.patch },
    );
    let version = package::PackageVersion { major: s.major, minor: s.minor, patch: s.patch };
    let wanted = package::PackageSpec { namespace: (&*spec.namespace).into(), name: (&*spec.name).into(), version };
    package::PackageManifest::new(info).validate(&wanted).err().map(|m| m.to_string())
}

impl PackageManifest {
    /// Reads a manifest from the text of a manifest file.
    pub fn parse(text: &str) -> (parsed: Result<PackageManifest, String>)
        ensures
            manifest_outcome(parsed) == manifest_syntax(text@),
    {
        parse_manifest(text)
    }

    /// Checks that the manifest is the one of the package that was asked
    /// for: a manifest with another name or another version is rejected,
    /// with a message that says so.
    pub fn validate(&self, spec: &PackageSpec) -> (checked: Result<(), String>)
        ensures
            checked is Err <==> manifest_mismatch(self@, spec@) is Some,
            checked is Err ==> manifest_mismatch(self@, spec@) == Some(checked->Err_0@),
            self@.name != spec@.name ==> checked is Err,
            self@.version != spec@.version ==> checked is Err,
            self@.name == spec@.name && self@.version == spec@.version && self@.compiler is None
                ==> checked is Ok,
    {
        match check_manifest(self, spec) {
            Some(message) => Err(message),
            None => Ok(()),
        }
    }
}

} // verus!
