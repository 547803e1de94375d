//! Importing files and packages: the decisions between the steps that the
//! host performs (loading a file, evaluating a file).

use vstd::prelude::*;
use vstd::string::StringExecFns;
use crate::assoc::{insert, lookup};
use crate::ast::{is_package_text, starts_with_sigil};
use crate::cache::{clone_outcome, outcome_view, Cache, Claim, SlotView};
use crate::diag::{
    cyclic_import, cyclic_import_error, single, trace_all, traced_all, views, Diagnostic,
    ErrorKind, Sink, SourceDiagnostic,
};
use crate::file::{
    file_load, file_load_error, joined_path, manifest_name, normalized_path, FileError,
    FileErrorKind, FileIdentity, FileIdentityView,
};
use crate::package::{
    manifest_mismatch, manifest_outcome, manifest_syntax, package_spec_syntax, spec_outcome,
    ManifestView, PackageManifest, PackageSpec, PackageSpecView,
};
use crate::route::Route;
use crate::span::Span;
use crate::value::Module;

verus! {

/// What one chain of evaluation carries along: the files under evaluation,
/// the cache of evaluated files and the sink for warnings.
#[derive(Debug, PartialEq)]
pub struct Engine {
    /// The files under evaluation on this chain.
    pub route: Route,
    /// The outcomes of earlier evaluations.
    pub cache: Cache,
    /// The warnings of this chain.
    pub sink: Sink,
}

impl Engine {
    /// An engine with an empty route, an empty cache and an empty sink.
    pub fn new() -> (engine: Self)
        ensures
            engine.route@.len() == 0,
            engine.cache@.len() == 0,
            engine.sink@.len() == 0,
    {
        Engine { route: Route::root(), cache: Cache::new(), sink: Sink::new() }
    }
}

/// What importing a text begins with.
#[derive(Debug, PartialEq)]
pub enum ImportStep {
    /// The text names a package: its manifest is to be loaded.
    Package { spec: PackageSpec, manifest: FileIdentity },
    /// The text names a file: its source is to be loaded.
    File(FileIdentity),
    /// The text names nothing that can be imported.
    Failed(Vec<SourceDiagnostic>),
}

/// What importing a text begins with, as contracts see it.
pub enum ImportStepView {
    Package { spec: PackageSpecView, manifest: FileIdentityView },
    File(FileIdentityView),
    Failed(Seq<Diagnostic>),
}

impl View for ImportStep {
    type V = ImportStepView;

    open spec fn view(&self) -> ImportStepView {
        match self {
            ImportStep::Package { spec, manifest } => ImportStepView::Package {
                spec: spec@,
                manifest: manifest@,
            },
            ImportStep::File(id) => ImportStepView::File(id@),
            ImportStep::Failed(errors) => ImportStepView::Failed(views(errors@)),
        }
    }
}

/// The identity of the manifest of a package.
pub open spec fn manifest_of(spec: PackageSpecView) -> FileIdentityView {
    FileIdentityView { package: Some(spec), path: normalized_path(manifest_name()) }
}

/// The error for a text that is no package specification.
pub open spec fn invalid_package_spec(message: Seq<char>, span: Span) -> Diagnostic {
    Diagnostic::new(ErrorKind::InvalidPackageSpec, span, message)
}

/// The error for a path that is imported from a place without a file.
pub open spec fn no_file_access(span: Span) -> Diagnostic {
    Diagnostic::new(ErrorKind::FileLoad, span, "cannot access file system from here"@)
}

/// What importing the text `from` begins with. A text that starts with `@`
/// is a package specification. Any other text is a path, which is resolved
/// against `base`, the file that the import is written in.
pub open spec fn import_step(from: Seq<char>, span: Span, base: Option<FileIdentityView>)
    -> ImportStepView {
    if is_package_text(from) {
        package_step(package_spec_syntax(from), span)
    } else {
        match base {
            Some(base) => ImportStepView::File(
                FileIdentityView { package: base.package, path: joined_path(base.path, from) },
            ),
            None => ImportStepView::Failed(seq![no_file_access(span)]),
        }
    }
}

/// The file that an import is written in, as contracts see it.
pub open spec fn base_view(base: Option<&FileIdentity>) -> Option<FileIdentityView> {
    match base {
        Some(base) => Some(base@),
        None => None,
    }
}

/// What importing a package begins with, once its specification was read:
/// the manifest of the package is to be loaded, or the text was no
/// specification.
pub open spec fn package_step(parsed: Result<PackageSpecView, Seq<char>>, span: Span)
    -> ImportStepView {
    match parsed {
        Ok(spec) => ImportStepView::Package { spec, manifest: manifest_of(spec) },
        Err(message) => ImportStepView::Failed(seq![invalid_package_spec(message, span)]),
    }
}

/// Begins the import of a package from what reading its specification
/// gave.
pub fn begin_package(parsed: Result<PackageSpec, String>, span: Span) -> (step: ImportStep)
    ensures
        step@ == package_step(spec_outcome(parsed), span),
{
    match parsed {
        Ok(spec) => {
            let manifest = FileIdentity::manifest(spec.clone());
            ImportStep::Package { spec, manifest }
        },
        Err(message) => ImportStep::Failed(
            single(SourceDiagnostic::error(ErrorKind::InvalidPackageSpec, span, message)),
        ),
    }
}

/// Begins the import of a package or of a file relative to the current
/// location: decides which file is to be loaded first. `base` is the file
/// that the import is written in, if it is written in one.
pub fn import(from: &str, span: Span, base: Option<&FileIdentity>) -> (step: ImportStep)
    ensures
        step@ == import_step(from@, span, base_view(base)),
{
    if starts_with_sigil(from) {
        begin_package(PackageSpec::parse(from), span)
    } else {
        match base {
            Some(base) => ImportStep::File(base.join(from)),
            None => ImportStep::Failed(
                single(
                    SourceDiagnostic::error(
                        ErrorKind::FileLoad,
                        span,
                        "cannot access file system from here".to_string(),
                    ),
                ),
            ),
        }
    }
}

/// What the loader gave for a file, as contracts see it.
pub open spec fn loaded_view<T>(loaded: Result<T, FileError>) -> Result<
    T,
    (FileErrorKind, Seq<char>),
> {
    match loaded {
        Ok(value) => Ok(value),
        Err(error) => Err((error.kind, error.message@)),
    }
}

/// The error for a manifest that cannot be parsed.
pub open spec fn malformed_manifest(message: Seq<char>, span: Span) -> Diagnostic {
    Diagnostic::new(
        ErrorKind::MalformedManifest,
        span,
        "package manifest is malformed ("@ + message + ")"@,
    )
}

/// The error for a manifest that is not the one of the package asked for.
pub open spec fn manifest_validation(message: Seq<char>, span: Span) -> Diagnostic {
    Diagnostic::new(ErrorKind::ManifestValidation, span, message)
}

/// The name and the entrypoint of a package whose manifest was checked
/// against the specification. A manifest with a mismatch is rejected. The
/// entrypoint is a file of the package, at the path that the manifest
/// gives, taken relative to the manifest.
pub open spec fn checked_entry(
    spec: PackageSpecView,
    manifest: ManifestView,
    mismatch: Option<Seq<char>>,
    span: Span,
) -> Result<(Seq<char>, FileIdentityView), Diagnostic> {
    match mismatch {
        Some(message) => Err(manifest_validation(message, span)),
        None => Ok(
            (
                manifest.name,
                FileIdentityView {
                    package: Some(spec),
                    path: joined_path(manifest_of(spec).path, manifest.entrypoint),
                },
            ),
        ),
    }
}

/// The name and the entrypoint of a package, from what parsing its
/// manifest gave.
pub open spec fn parsed_entry(
    spec: PackageSpecView,
    parsed: Result<ManifestView, Seq<char>>,
    span: Span,
) -> Result<(Seq<char>, FileIdentityView), Diagnostic> {
    match parsed {
        Err(message) => Err(malformed_manifest(message, span)),
        Ok(manifest) => checked_entry(spec, manifest, manifest_mismatch(manifest, spec), span),
    }
}

/// The name and the entrypoint of a package, from what loading its
/// manifest gave. The manifest must load, parse and be the one of the
/// package that was asked for; only then is the entrypoint known.
pub open spec fn package_entry(
    spec: PackageSpecView,
    manifest: Result<Seq<char>, (FileErrorKind, Seq<char>)>,
    span: Span,
) -> Result<(Seq<char>, FileIdentityView), Diagnostic> {
    match manifest {
        Err((kind, message)) => Err(file_load(kind, message, span)),
        Ok(text) => parsed_entry(spec, manifest_syntax(text), span),
    }
}

/// A name and an entrypoint, or the error, as contracts see them.
pub open spec fn entry_view(entry: Result<(String, FileIdentity), Vec<SourceDiagnostic>>) -> Result<
    (Seq<char>, FileIdentityView),
    Seq<Diagnostic>,
> {
    match entry {
        Ok((name, id)) => Ok((name@, id@)),
        Err(errors) => Err(views(errors@)),
    }
}

/// One error in place of an entry, as a list.
pub open spec fn listed(entry: Result<(Seq<char>, FileIdentityView), Diagnostic>) -> Result<
    (Seq<char>, FileIdentityView),
    Seq<Diagnostic>,
> {
    match entry {
        Ok(found) => Ok(found),
        Err(error) => Err(seq![error]),
    }
}

/// Whether the manifest that was loaded parses and declares another name
/// or another version than the package that was asked for has.
pub open spec fn declares_other_package(
    spec: PackageSpecView,
    manifest: Result<Seq<char>, (FileErrorKind, Seq<char>)>,
) -> bool {
    manifest is Ok && manifest_syntax(manifest->Ok_0) is Ok && (manifest_syntax(
        manifest->Ok_0,
    )->Ok_0.name != spec.name || manifest_syntax(manifest->Ok_0)->Ok_0.version != spec.version)
}

/// Whether the manifest that was loaded parses, declares the name and the
/// version of the package that was asked for, and asks for no compiler.
pub open spec fn declares_this_package(
    spec: PackageSpecView,
    manifest: Result<Seq<char>, (FileErrorKind, Seq<char>)>,
) -> bool {
    manifest is Ok && manifest_syntax(manifest->Ok_0) is Ok && manifest_syntax(
        manifest->Ok_0,
    )->Ok_0.name == spec.name && manifest_syntax(manifest->Ok_0)->Ok_0.version == spec.version
        && manifest_syntax(manifest->Ok_0)->Ok_0.compiler is None
}

/// The text of a loaded file or the failure of the loader, as contracts
/// see them.
pub open spec fn text_view(loaded: Result<String, FileError>) -> Result<
    Seq<char>,
    (FileErrorKind, Seq<char>),
> {
    match loaded {
        Ok(text) => Ok(text@),
        Err(error) => Err((error.kind, error.message@)),
    }
}

/// Hands out the name and the entrypoint of a package whose manifest was
/// checked against the specification: `checked` is what the check gave.
pub fn entry_of_checked(
    spec: &PackageSpec,
    manifest: PackageManifest,
    checked: Result<(), String>,
    span: Span,
) -> (entry: Result<(String, FileIdentity), Vec<SourceDiagnostic>>)
    ensures
        entry_view(entry) == listed(
            checked_entry(
                spec@,
                manifest@,
                match checked {
                    Ok(_) => None,
                    Err(message) => Some(message@),
                },
                span,
            ),
        ),
        checked is Err ==> entry is Err && entry->Err_0@.len() == 1 && entry->Err_0@[0].kind
            == ErrorKind::ManifestValidation && entry->Err_0@[0].span == span,
{
    match checked {
        Ok(()) => {
            let manifest_id = FileIdentity::manifest(spec.clone());
            let entry = manifest_id.join(manifest.entrypoint.as_str());
            Ok((manifest.name, entry))
        },
        Err(message) => {
            let errors = single(
                SourceDiagnostic::error(ErrorKind::ManifestValidation, span, message),
            );
            assert(views(errors@).len() == errors@.len());
            assert(views(errors@)[0] == errors@[0]@);
            Err(errors)
        },
    }
}

/// Resolves the name and the entrypoint of a package from what parsing its
/// manifest gave.
pub fn resolve_manifest(spec: &PackageSpec, parsed: Result<PackageManifest, String>, span: Span) -> (entry:
    Result<(String, FileIdentity), Vec<SourceDiagnostic>>)
    ensures
        entry_view(entry) == listed(parsed_entry(spec@, manifest_outcome(parsed), span)),
        parsed is Ok && (parsed->Ok_0@.name != spec@.name || parsed->Ok_0@.version
            != spec@.version) ==> entry is Err && entry->Err_0@.len() == 1
            && entry->Err_0@[0].kind == ErrorKind::ManifestValidation && entry->Err_0@[0].span
            == span,
        parsed is Ok && parsed->Ok_0@.name == spec@.name && parsed->Ok_0@.version == spec@.version
            && parsed->Ok_0@.compiler is None ==> entry is Ok,
{
    match parsed {
        Ok(manifest) => {
            let checked = manifest.validate(spec);
            entry_of_checked(spec, manifest, checked, span)
        },
        Err(message) => {
            let mut full = "package manifest is malformed (".to_string();
            full.append(message.as_str());
            full.append(")");
            Err(single(SourceDiagnostic::error(ErrorKind::MalformedManifest, span, full)))
        },
    }
}

/// Resolves the name and the entrypoint of a package from what loading its
/// manifest gave. A manifest that declares another name or another version
/// is rejected, and no entrypoint is handed out: there is nothing that the
/// loader could be asked for.
pub fn resolve_package(spec: &PackageSpec, manifest: Result<String, FileError>, span: Span) -> (entry:
    Result<(String, FileIdentity), Vec<SourceDiagnostic>>)
    ensures
        entry_view(entry) == listed(package_entry(spec@, text_view(manifest), span)),
        declares_other_package(spec@, text_view(manifest)) ==> entry is Err
            && entry->Err_0@.len() == 1 && entry->Err_0@[0].kind == ErrorKind::ManifestValidation
            && entry->Err_0@[0].span == span,
        declares_this_package(spec@, text_view(manifest)) ==> entry is Ok,
{
    match manifest {
        Ok(text) => resolve_manifest(spec, PackageManifest::parse(text.as_str()), span),
        Err(error) => Err(single(file_load_error(error, span))),
    }
}

/// What importing a file goes on with, once the loader has answered.
#[derive(Debug, PartialEq)]
pub enum FileStep {
    /// The outcome is known: the file is not evaluated.
    Done(Result<Module, Vec<SourceDiagnostic>>),
    /// The host is to evaluate the file and to hand the outcome to
    /// [`finish_file`]. The file is on the route until then.
    Evaluate,
    /// Another chain evaluates the file on the same inputs: the host is to
    /// wait and to ask again.
    Wait,
}

/// What importing a file goes on with, as contracts see it.
pub enum FileStepView {
    Done(Result<Module, Seq<Diagnostic>>),
    Evaluate,
    Wait,
}

impl View for FileStep {
    type V = FileStepView;

    open spec fn view(&self) -> FileStepView {
        match self {
            FileStep::Done(outcome) => FileStepView::Done(outcome_view(*outcome)),
            FileStep::Evaluate => FileStepView::Evaluate,
            FileStep::Wait => FileStepView::Wait,
        }
    }
}

/// The outcome of an evaluation as it leaves the import at `span`: a module
/// as it is, errors marked with the import.
pub open spec fn traced_outcome(outcome: Result<Module, Seq<Diagnostic>>, span: Span) -> Result<
    Module,
    Seq<Diagnostic>,
> {
    match outcome {
        Ok(module) => Ok(module),
        Err(errors) => Err(traced_all(errors, span)),
    }
}

/// What importing the file `id` goes on with. A file that failed to load
/// fails the import. A file that is on the route imports itself: the
/// import fails at `span` and the file is not evaluated again. An outcome
/// that the cache holds for the file and the fingerprint is replayed, and
/// the file is not evaluated. Otherwise the file is to be evaluated,
/// unless that evaluation is in flight elsewhere.
pub open spec fn file_step(
    route: Seq<FileIdentityView>,
    cache: Seq<((FileIdentityView, u128), SlotView)>,
    id: FileIdentityView,
    loaded: Result<u128, (FileErrorKind, Seq<char>)>,
    span: Span,
) -> FileStepView {
    match loaded {
        Err((kind, message)) => FileStepView::Done(Err(seq![file_load(kind, message, span)])),
        Ok(fingerprint) => if route.contains(id) {
            FileStepView::Done(Err(seq![cyclic_import(span)]))
        } else {
            match lookup(cache, (id, fingerprint)) {
                Some(SlotView::Done(outcome)) => FileStepView::Done(traced_outcome(outcome, span)),
                Some(SlotView::InFlight) => FileStepView::Wait,
                None => FileStepView::Evaluate,
            }
        },
    }
}

/// Marks the errors of an outcome with the import at `span`.
pub fn trace_outcome(outcome: Result<Module, Vec<SourceDiagnostic>>, span: Span) -> (traced: Result<
    Module,
    Vec<SourceDiagnostic>,
>)
    ensures
        outcome_view(traced) == traced_outcome(outcome_view(outcome), span),
{
    match outcome {
        Ok(module) => Ok(module),
        Err(errors) => Err(trace_all(errors, span)),
    }
}

/// Goes on with the import of the file `id`, once the loader has answered
/// with the fingerprint of what evaluating the file reads, or with a
/// failure. Only where the answer is [`FileStep::Evaluate`] does the engine
/// change: the file is on the route and its evaluation is in flight.
pub fn import_file(engine: &mut Engine, id: &FileIdentity, loaded: Result<u128, FileError>, span: Span)
    -> (step: FileStep)
    ensures
        step@ == file_step(old(engine).route@, old(engine).cache@, id@, loaded_view(loaded), span),
        final(engine).sink@ == old(engine).sink@,
        step is Evaluate ==> final(engine).route@ == old(engine).route@.push(id@)
            && final(engine).cache@ == insert(
            old(engine).cache@,
            (id@, loaded->Ok_0),
            SlotView::InFlight,
        ),
        !(step is Evaluate) ==> final(engine).route@ == old(engine).route@ && final(engine).cache@
            == old(engine).cache@,
{
    let fingerprint = match loaded {
        Ok(fingerprint) => fingerprint,
        Err(error) => {
            return FileStep::Done(Err(single(file_load_error(error, span))));
        },
    };
    if engine.route.contains(id) {
        return FileStep::Done(Err(single(cyclic_import_error(span))));
    }
    match engine.cache.claim(id, fingerprint) {
        Claim::Hit(outcome) => FileStep::Done(trace_outcome(outcome, span)),
        Claim::Busy => FileStep::Wait,
        Claim::Start => {
            let entered = engine.route.enter(id.clone());
            assert(entered);
            FileStep::Evaluate
        },
    }
}

/// Ends the import of the file `id` that [`import_file`] asked to evaluate:
/// the file leaves the route, the outcome is kept in the cache under the
/// fingerprint, and the outcome is handed on, its errors marked with the
/// import at `span`.
pub fn finish_file(
    engine: &mut Engine,
    id: FileIdentity,
    fingerprint: u128,
    outcome: Result<Module, Vec<SourceDiagnostic>>,
    span: Span,
) -> (result: Result<Module, Vec<SourceDiagnostic>>)
    ensures
        outcome_view(result) == traced_outcome(outcome_view(outcome), span),
        final(engine).sink@ == old(engine).sink@,
        final(engine).route@ == if old(engine).route@.len() > 0 {
            old(engine).route@.drop_last()
        } else {
            old(engine).route@
        },
        final(engine).cache@ == insert(
            old(engine).cache@,
            (id@, fingerprint),
            SlotView::Done(outcome_view(outcome)),
        ),
{
    let _ = engine.route.leave();
    let kept = clone_outcome(&outcome);
    engine.cache.complete(id, fingerprint, kept);
    trace_outcome(outcome, span)
}

/// Ends the import of a package: the module that its entrypoint gave gets
/// the name that the manifest declares. Errors pass unchanged.
pub fn import_package(name: &str, outcome: Result<Module, Vec<SourceDiagnostic>>) -> (result: Result<
    Module,
    Vec<SourceDiagnostic>,
>)
    ensures
        outcome matches Ok(module) ==> result is Ok && result->Ok_0.inner == module.inner
            && result->Ok_0.name is Some && result->Ok_0.name->0@ == name@,
        outcome matches Err(errors) ==> result is Err && result->Err_0 == errors,
{
    match outcome {
        Ok(module) => Ok(module.with_name(name)),
        Err(errors) => Err(errors),
    }
}

} // verus!
