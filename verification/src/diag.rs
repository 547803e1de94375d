//! Diagnostics: errors, warnings and the sink that collects warnings.

use vstd::prelude::*;
use vstd::string::StringExecFns;
use crate::span::Span;
use crate::value::Kind;

verus! {

/// What went wrong in an import.
#[derive(Debug, Clone, Copy, PartialEq, Eq, Structural, Hash)]
pub enum ErrorKind {
    /// The source is a value that no import can start from.
    InvalidImportSource { found: Kind },
    /// The source is a callable without a scope.
    UnimportableCallable,
    /// A computed path was imported without a name for the module.
    DynamicImportRequiresName,
    /// The name that a path gives the module is no identifier.
    InvalidModuleName,
    /// A name was not found in the scope it was looked up in.
    UnresolvedImport,
    /// A file imports itself, directly or through other files.
    CyclicImport,
    /// A file could not be loaded.
    FileLoad,
    /// The text is no package specification.
    InvalidPackageSpec,
    /// The manifest of a package could not be parsed.
    MalformedManifest,
    /// The manifest of a package is not the one that was asked for.
    ManifestValidation,
}

/// What a trace entry marks.
#[derive(Debug, Clone, Copy, PartialEq, Eq, Structural, Hash)]
pub enum Tracepoint {
    /// A call of a function.
    Call,
    /// The application of a show rule.
    Show,
    /// The import of a module.
    Import,
}

/// One step of the way that led to an error.
#[derive(Debug, Clone, Copy, PartialEq, Eq, Structural, Hash)]
pub struct Trace {
    /// What happened at this step.
    pub point: Tracepoint,
    /// Where it happened.
    pub span: Span,
}

/// An error as contracts see it.
pub struct Diagnostic {
    pub kind: ErrorKind,
    pub span: Span,
    pub message: Seq<char>,
    pub hints: Seq<Seq<char>>,
    pub trace: Seq<Trace>,
}

impl Diagnostic {
    /// An error without hints and without a trace.
    pub open spec fn new(kind: ErrorKind, span: Span, message: Seq<char>) -> Diagnostic {
        Diagnostic { kind, span, message, hints: Seq::empty(), trace: Seq::empty() }
    }

    /// The error with one more hint.
    pub open spec fn hinted(self, hint: Seq<char>) -> Diagnostic {
        Diagnostic { hints: self.hints.push(hint), ..self }
    }

    /// The error as it leaves an import at `span`: marked with the import,
    /// unless the import is detached or surrounds the place of the error.
    pub open spec fn traced(self, span: Span) -> Diagnostic {
        if span.is_detached() || (!self.span.is_detached() && span.surrounds(self.span)) {
            self
        } else {
            Diagnostic { trace: self.trace.push(Trace { point: Tracepoint::Import, span }), ..self }
        }
    }
}

/// An error: its kind, the place it is attributed to, a message, hints on
/// how to avoid it, and the way that led to it.
#[derive(Debug, PartialEq, Eq)]
pub struct SourceDiagnostic {
    /// What went wrong.
    pub kind: ErrorKind,
    /// The place the error is attributed to.
    pub span: Span,
    /// The message.
    pub message: String,
    /// Hints on how to avoid the error.
    pub hints: Vec<String>,
    /// The imports and calls that led to the error, innermost first.
    pub trace: Vec<Trace>,
}

/// The texts as sequences of characters.
pub open spec fn texts(strings: Seq<String>) -> Seq<Seq<char>> {
    Seq::new(strings.len(), |i: int| strings[i]@)
}

impl View for SourceDiagnostic {
    type V = Diagnostic;

    open spec fn view(&self) -> Diagnostic {
        Diagnostic {
            kind: self.kind,
            span: self.span,
            message: self.message@,
            hints: texts(self.hints@),
            trace: self.trace@,
        }
    }
}

/// The errors as contracts see them.
pub open spec fn views(errors: Seq<SourceDiagnostic>) -> Seq<Diagnostic> {
    Seq::new(errors.len(), |i: int| errors[i]@)
}

impl Clone for SourceDiagnostic {
    fn clone(&self) -> (copy: Self)
        ensures
            copy@ == self@,
    {
        let hints = self.hints.clone();
        let trace = self.trace.clone();
        assert(texts(hints@) =~= texts(self.hints@));
        assert(trace@ =~= self.trace@);
        SourceDiagnostic {
            kind: self.kind,
            span: self.span,
            message: self.message.clone(),
            hints,
            trace,
        }
    }
}

impl SourceDiagnostic {
    /// An error without hints and without a trace.
    pub fn error(kind: ErrorKind, span: Span, message: String) -> (error: Self)
        ensures
            error@ == Diagnostic::new(kind, span, message@),
    {
        let error = SourceDiagnostic { kind, span, message, hints: Vec::new(), trace: Vec::new() };
        assert(texts(error.hints@) =~= Seq::empty());
        error
    }

    /// The error with one more hint.
    pub fn with_hint(self, hint: &str) -> (error: Self)
        ensures
            error@ == self@.hinted(hint@),
    {
        let mut hints = self.hints;
        hints.push(hint.to_string());
        assert(texts(hints@) =~= texts(self.hints@).push(hint@));
        SourceDiagnostic {
            kind: self.kind,
            span: self.span,
            message: self.message,
            hints,
            trace: self.trace,
        }
    }

    /// The error as it leaves an import at `span`: marked with the import,
    /// unless the import is detached or surrounds the place of the error.
    pub fn traced(self, span: Span) -> (error: Self)
        ensures
            error@ == self@.traced(span),
    {
        if span.is_detached() || (!self.span.is_detached() && span.contains(&self.span)) {
            self
        } else {
            let mut trace = self.trace;
            trace.push(Trace { point: Tracepoint::Import, span });
            SourceDiagnostic {
                kind: self.kind,
                span: self.span,
                message: self.message,
                hints: self.hints,
                trace,
            }
        }
    }
}

/// The error for a source value that exposes no scope and is no callable.
/// `expected` lists what would have been accepted, `name` is the name of
/// the type of the value.
pub open spec fn invalid_source(expected: Seq<char>, found: Kind, name: Seq<char>, span: Span)
    -> Diagnostic {
    Diagnostic::new(
        ErrorKind::InvalidImportSource { found },
        span,
        "expected "@ + expected + ", found "@ + name,
    )
}

/// The error for a callable without a scope.
pub open spec fn unimportable_callable(span: Span) -> Diagnostic {
    Diagnostic::new(
        ErrorKind::UnimportableCallable,
        span,
        "cannot import from user-defined functions"@,
    )
}

/// The error for a computed path that is imported without a name.
pub open spec fn dynamic_import(span: Span) -> Diagnostic {
    Diagnostic::new(
        ErrorKind::DynamicImportRequiresName,
        span,
        "dynamic import requires an explicit name"@,
    ).hinted("you can name the import with `as`"@)
}

/// The error for a path whose module name would be no identifier.
pub open spec fn invalid_module_name(span: Span) -> Diagnostic {
    Diagnostic::new(
        ErrorKind::InvalidModuleName,
        span,
        "module name would not be a valid identifier"@,
    ).hinted("you can rename the import with `as`"@)
}

/// The error for a name that its scope does not hold.
pub open spec fn unresolved_import(span: Span) -> Diagnostic {
    Diagnostic::new(ErrorKind::UnresolvedImport, span, "unresolved import"@)
}

/// The error for a file that is imported while it is being evaluated.
pub open spec fn cyclic_import(span: Span) -> Diagnostic {
    Diagnostic::new(ErrorKind::CyclicImport, span, "cyclic import"@)
}

/// Builds [`invalid_source`].
pub fn invalid_source_error(expected: &str, found: Kind, name: &str, span: Span) -> (error:
    SourceDiagnostic)
    ensures
        error@ == invalid_source(expected@, found, name@, span),
{
    let mut message = "expected ".to_string();
    message.append(expected);
    message.append(", found ");
    message.append(name);
    SourceDiagnostic::error(ErrorKind::InvalidImportSource { found }, span, message)
}

/// Builds [`unimportable_callable`].
pub fn unimportable_callable_error(span: Span) -> (error: SourceDiagnostic)
    ensures
        error@ == unimportable_callable(span),
{
    SourceDiagnostic::error(
        ErrorKind::UnimportableCallable,
        span,
        "cannot import from user-defined functions".to_string(),
    )
}

/// Builds [`dynamic_import`].
pub fn dynamic_import_error(span: Span) -> (error: SourceDiagnostic)
    ensures
        error@ == dynamic_import(span),
{
    SourceDiagnostic::error(
        ErrorKind::DynamicImportRequiresName,
        span,
        "dynamic import requires an explicit name".to_string(),
    ).with_hint("you can name the import with `as`")
}

/// Builds [`invalid_module_name`].
pub fn invalid_module_name_error(span: Span) -> (error: SourceDiagnostic)
    ensures
        error@ == invalid_module_name(span),
{
    SourceDiagnostic::error(
        ErrorKind::InvalidModuleName,
        span,
        "module name would not be a valid identifier".to_string(),
    ).with_hint("you can rename the import with `as`")
}

/// Builds [`unresolved_import`].
pub fn unresolved_import_error(span: Span) -> (error: SourceDiagnostic)
    ensures
        error@ == unresolved_import(span),
{
    SourceDiagnostic::error(ErrorKind::UnresolvedImport, span, "unresolved import".to_string())
}

/// Builds [`cyclic_import`].
pub fn cyclic_import_error(span: Span) -> (error: SourceDiagnostic)
    ensures
        error@ == cyclic_import(span),
{
    SourceDiagnostic::error(ErrorKind::CyclicImport, span, "cyclic import".to_string())
}

/// A list that holds one error.
pub fn single(error: SourceDiagnostic) -> (errors: Vec<SourceDiagnostic>)
    ensures
        views(errors@) == seq![error@],
{
    let mut errors: Vec<SourceDiagnostic> = Vec::new();
    errors.push(error);
    assert(views(errors@) =~= seq![error@]);
    errors
}

/// The errors as they leave an import at `span`.
pub open spec fn traced_all(errors: Seq<Diagnostic>, span: Span) -> Seq<Diagnostic> {
    Seq::new(errors.len(), |i: int| errors[i].traced(span))
}

/// Marks each error with the import at `span` that it leaves through.
pub fn trace_all(errors: Vec<SourceDiagnostic>, span: Span) -> (traced: Vec<SourceDiagnostic>)
    ensures
        views(traced@) == traced_all(views(errors@), span),
{
    let mut traced: Vec<SourceDiagnostic> = Vec::new();
    let mut rest = errors;
    let ghost all = views(errors@);
    // Take the errors from the back and put them in order again afterwards.
    let mut reversed: Vec<SourceDiagnostic> = Vec::new();
    while rest.len() > 0
        invariant
            rest@.len() + reversed@.len() == all.len(),
            forall|i: int| 0 <= i < rest@.len() ==> (#[trigger] rest@[i])@ == all[i],
            forall|i: int|
                0 <= i < reversed@.len() ==> (#[trigger] reversed@[i])@ == all[all.len() - 1
                    - i].traced(span),
        decreases rest@.len(),
    {
        let error = rest.pop().unwrap();
        reversed.push(error.traced(span));
    }
    while reversed.len() > 0
        invariant
            traced@.len() + reversed@.len() == all.len(),
            forall|i: int|
                0 <= i < reversed@.len() ==> (#[trigger] reversed@[i])@ == all[all.len() - 1
                    - i].traced(span),
            forall|i: int| 0 <= i < traced@.len() ==> (#[trigger] traced@[i])@ == all[i].traced(span),
        decreases reversed@.len(),
    {
        let error = reversed.pop().unwrap();
        traced.push(error);
    }
    assert(views(traced@) =~= traced_all(all, span));
    traced
}

/// Copies a list of errors.
pub fn clone_errors(errors: &Vec<SourceDiagnostic>) -> (copy: Vec<SourceDiagnostic>)
    ensures
        views(copy@) == views(errors@),
{
    let mut copy: Vec<SourceDiagnostic> = Vec::new();
    let mut i: usize = 0;
    while i < errors.len()
        invariant
            i <= errors.len(),
            copy@.len() == i,
            forall|j: int| 0 <= j < i ==> (#[trigger] copy@[j])@ == errors@[j]@,
        decreases errors.len() - i,
    {
        copy.push(errors[i].clone());
        i += 1;
    }
    assert(views(copy@) =~= views(errors@));
    copy
}

/// What a warning is about.
#[derive(Debug, Clone, Copy, PartialEq, Eq, Structural, Hash)]
pub enum WarningKind {
    /// A rename to the name that the item has anyway.
    RedundantRename,
    /// An import that binds a name to what it is bound to already.
    NoEffect,
}

/// A warning: it never stops an import.
#[derive(Debug, Clone, Copy, PartialEq, Eq, Structural, Hash)]
pub struct Warning {
    /// What the warning is about.
    pub kind: WarningKind,
    /// The place the warning is attributed to.
    pub span: Span,
}

impl Warning {
    /// The message of the warning.
    pub open spec fn spec_message(self) -> Seq<char> {
        match self.kind {
            WarningKind::RedundantRename => "unnecessary import rename to same name"@,
            WarningKind::NoEffect => "this import has no effect"@,
        }
    }

    /// The message of the warning.
    pub fn message(&self) -> (message: &'static str)
        ensures
            message@ == self.spec_message(),
    {
        match self.kind {
            WarningKind::RedundantRename => "unnecessary import rename to same name",
            WarningKind::NoEffect => "this import has no effect",
        }
    }
}

/// The warnings after one more was reported: a warning that is recorded
/// already is not recorded again.
pub open spec fn record(warnings: Seq<Warning>, warning: Warning) -> Seq<Warning> {
    if warnings.contains(warning) {
        warnings
    } else {
        warnings.push(warning)
    }
}

/// The warnings after each of `reported` was reported in turn.
pub open spec fn record_all(warnings: Seq<Warning>, reported: Seq<Warning>) -> Seq<Warning>
    decreases reported.len(),
{
    if reported.len() == 0 {
        warnings
    } else {
        record(record_all(warnings, reported.drop_last()), reported.last())
    }
}

/// Collects the warnings of one chain of evaluation, each of them once.
#[derive(Debug, PartialEq)]
pub struct Sink {
    warnings: Vec<Warning>,
}

impl View for Sink {
    type V = Seq<Warning>;

    closed spec fn view(&self) -> Seq<Warning> {
        self.warnings@
    }
}

impl Sink {
    /// No warning is recorded twice.
    #[verifier::type_invariant]
    pub open spec fn wf(self) -> bool {
        self@.no_duplicates()
    }

    /// A sink without warnings.
    pub fn new() -> (sink: Self)
        ensures
            sink@ == Seq::<Warning>::empty(),
    {
        Sink { warnings: Vec::new() }
    }

    /// Records a warning, unless the same warning is recorded already.
    pub fn warn(&mut self, warning: Warning)
        ensures
            final(self)@ == record(old(self)@, warning),
            final(self).wf(),
    {
        proof {
            use_type_invariant(&*self);
        }
        let mut i: usize = 0;
        while i < self.warnings.len()
            invariant
                self.wf(),
                i <= self.warnings.len(),
                forall|j: int| 0 <= j < i ==> self@[j] != warning,
            decreases self.warnings.len() - i,
        {
            if self.warnings[i] == warning {
                assert(self@[i as int] == warning);
                return ;
            }
            i += 1;
        }
        let mut taken = Sink::new();
        std::mem::swap(self, &mut taken);
        let mut warnings = taken.warnings;
        warnings.push(warning);
        *self = Sink { warnings };
    }

    /// Records the warnings in order, each unless it is recorded already.
    pub fn report(&mut self, warnings: &Vec<Warning>)
        ensures
            final(self)@ == record_all(old(self)@, warnings@),
            final(self).wf(),
    {
        proof {
            use_type_invariant(&*self);
        }
        let mut i: usize = 0;
        while i < warnings.len()
            invariant
                self.wf(),
                i <= warnings.len(),
                self@ == record_all(old(self)@, warnings@.take(i as int)),
            decreases warnings.len() - i,
        {
            self.warn(warnings[i]);
            assert(warnings@.take(i + 1).drop_last() =~= warnings@.take(i as int));
            i += 1;
        }
        assert(warnings@.take(i as int) =~= warnings@);
    }

    /// Takes over the warnings of another chain of evaluation, in their
    /// order, each unless it is recorded already.
    pub fn extend_from_sink(&mut self, other: Sink)
        ensures
            final(self)@ == record_all(old(self)@, other@),
            final(self).wf(),
    {
        self.report(&other.warnings);
    }

    /// The warnings in the order in which they were first reported.
    pub fn warnings(&self) -> (warnings: Vec<Warning>)
        ensures
            warnings@ == self@,
    {
        let warnings = self.warnings.clone();
        assert(warnings@ =~= self@);
        warnings
    }
}

} // verus!
