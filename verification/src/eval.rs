//! Evaluating `import` and `include`: from a statement and the value of its
//! source to bindings, warnings and errors.

use vstd::prelude::*;
use crate::assoc::{insert_all, lookup};
use crate::ast::{
    bare_name_of, name_outcome, BareImportError, Expr, ImportItem, Imports, ModuleImport,
    ModuleInclude,
};
use crate::diag::{
    dynamic_import, dynamic_import_error, invalid_module_name, invalid_module_name_error,
    invalid_source, invalid_source_error, record_all, single, unimportable_callable,
    unimportable_callable_error, unresolved_import, unresolved_import_error, views, Diagnostic,
    Sink, SourceDiagnostic, Warning, WarningKind,
};
use crate::scope::{pairs, Entry, Scope};
use crate::span::Span;
use crate::value::{scope_of, Binding, Content, Value};

verus! {

/// What a statement does: the names it binds, in order, the warnings it
/// reports, in order, and the errors it fails with, in order.
#[verifier::ext_equal]
pub struct Effect {
    pub bound: Seq<(Seq<char>, Binding)>,
    pub warnings: Seq<Warning>,
    pub errors: Seq<Diagnostic>,
}

impl Effect {
    /// No effect.
    pub open spec fn nothing() -> Effect {
        Effect { bound: Seq::empty(), warnings: Seq::empty(), errors: Seq::empty() }
    }

    /// This effect, and after it `next`.
    pub open spec fn followed_by(self, next: Effect) -> Effect {
        Effect {
            bound: self.bound + next.bound,
            warnings: self.warnings + next.warnings,
            errors: self.errors + next.errors,
        }
    }

    /// One name is bound.
    pub open spec fn binds(name: Seq<char>, binding: Binding) -> Effect {
        Effect { bound: seq![(name, binding)], warnings: Seq::empty(), errors: Seq::empty() }
    }

    /// One warning is reported.
    pub open spec fn warns(warning: Warning) -> Effect {
        Effect { bound: Seq::empty(), warnings: seq![warning], errors: Seq::empty() }
    }

    /// One error is raised.
    pub open spec fn fails(error: Diagnostic) -> Effect {
        Effect { bound: Seq::empty(), warnings: Seq::empty(), errors: seq![error] }
    }
}

/// What an import accepts as its source.
pub open spec fn import_sources() -> Seq<char> {
    "path, module, function, or type"@
}

/// What an import accepts on the way through a path.
pub open spec fn nested_sources() -> Seq<char> {
    "module, function, or type"@
}

/// What an include accepts as its source.
pub open spec fn include_sources() -> Seq<char> {
    "path or module"@
}

/// The error for a value that exposes no scope: a callable (it has none of
/// its own) cannot be imported from, and any other value has the wrong kind.
pub open spec fn source_error(value: Value, expected: Seq<char>, span: Span) -> Diagnostic {
    if value is Func {
        unimportable_callable(span)
    } else {
        invalid_source(expected, value.spec_kind(), value.spec_ty(), span)
    }
}

/// Builds [`source_error`].
pub fn source_error_for(value: &Value, expected: &str, span: Span) -> (error: SourceDiagnostic)
    ensures
        error@ == source_error(*value, expected@, span),
{
    match value {
        Value::Func(_) => unimportable_callable_error(span),
        _ => invalid_source_error(expected, value.kind(), value.ty(), span),
    }
}

/// The warning for a rename to the same name.
pub open spec fn redundant_rename(span: Span) -> Warning {
    Warning { kind: WarningKind::RedundantRename, span }
}

/// The warning for an import that binds a name to itself.
pub open spec fn no_effect(span: Span) -> Warning {
    Warning { kind: WarningKind::NoEffect, span }
}

/// The effect of one item of an import list, from the segment at `from` on,
/// looked up in `scope`. A segment that `scope` does not hold fails the
/// item. A segment before the last must be bound to a value that exposes a
/// scope, in which the next segment is looked up. The last segment gives
/// the binding, which is bound as it is, under the name of the item.
pub open spec fn walk(scope: Seq<(Seq<char>, Binding)>, item: ImportItem, from: int) -> Effect
    decreases item.path@.len() - from,
{
    let path = item.path@;
    if from < 0 || from >= path.len() {
        Effect::nothing()
    } else {
        match lookup(scope, path[from].v@) {
            None => Effect::fails(unresolved_import(path[from].span)),
            Some(binding) => if from + 1 < path.len() {
                match scope_of(binding.value) {
                    Some(inner) => walk(inner@, item, from + 1),
                    None => Effect::fails(
                        source_error(binding.value, nested_sources(), path[from].span),
                    ),
                }
            } else if item.is_redundant() {
                Effect::warns(redundant_rename(item.new_name->0.span)).followed_by(
                    Effect::binds(item.bound_name(), binding),
                )
            } else {
                Effect::binds(item.bound_name(), binding)
            },
        }
    }
}

/// The effect of one item of an import list on a source with the bindings
/// `scope`.
pub open spec fn item_effect(scope: Seq<(Seq<char>, Binding)>, item: ImportItem) -> Effect {
    walk(scope, item, 0)
}

/// The effect of an import list: that of each item in turn. An item that
/// fails does not keep the others from being resolved.
pub open spec fn items_effect(scope: Seq<(Seq<char>, Binding)>, items: Seq<ImportItem>) -> Effect
    decreases items.len(),
{
    if items.len() == 0 {
        Effect::nothing()
    } else {
        items_effect(scope, items.drop_last()).followed_by(item_effect(scope, items.last()))
    }
}

/// The effect of `as name` behind the source: the name is bound to the
/// source, at the place of the name. A source that is the same identifier
/// gets a warning.
pub open spec fn rename_effect(stmt: ModuleImport, source: Value) -> Effect {
    match stmt.new_name {
        None => Effect::nothing(),
        Some(name) => {
            let binds = Effect::binds(name.v@, Binding { value: source, span: name.span });
            if stmt.source.v matches Expr::Ident(ident) && ident@ == name.v@ {
                Effect::warns(redundant_rename(name.span)).followed_by(binds)
            } else {
                binds
            }
        },
    }
}

/// The effect of an import that neither renames its source nor lists
/// items, where `bare` is the name that its source expression gives: the
/// source is bound under that name, at the place of the expression. A
/// source that was loaded from a text gives a name only where the
/// expression is a string literal. An identifier as source gets a warning:
/// it is bound to itself.
pub open spec fn bare_effect(
    stmt: ModuleImport,
    source: Value,
    is_str: bool,
    bare: Result<Seq<char>, BareImportError>,
) -> Effect {
    let span = stmt.source.span;
    match bare {
        Ok(name) => if !is_str || stmt.source.v is Str {
            let binds = Effect::binds(name, Binding { value: source, span });
            if stmt.source.v is Ident {
                Effect::warns(no_effect(span)).followed_by(binds)
            } else {
                binds
            }
        } else {
            Effect::fails(dynamic_import(span))
        },
        Err(BareImportError::Dynamic) => Effect::fails(dynamic_import(span)),
        Err(_) => Effect::fails(invalid_module_name(span)),
    }
}

/// The effect of what follows the source and its rename.
pub open spec fn imports_effect(
    stmt: ModuleImport,
    source: Value,
    is_str: bool,
    scope: Seq<(Seq<char>, Binding)>,
    bare: Result<Seq<char>, BareImportError>,
) -> Effect {
    match stmt.imports {
        None => if stmt.new_name is None {
            bare_effect(stmt, source, is_str, bare)
        } else {
            Effect::nothing()
        },
        Some(Imports::Wildcard) => Effect {
            bound: scope,
            warnings: Seq::empty(),
            errors: Seq::empty(),
        },
        Some(Imports::Items(items)) => items_effect(scope, items@),
    }
}

/// The effect of an import whose source has the value `source`, where
/// `bare` is the name that the source expression gives. `is_str` says that
/// the source was a text, of which `source` is the loaded module.
pub open spec fn import_effect_given(
    stmt: ModuleImport,
    source: Value,
    is_str: bool,
    bare: Result<Seq<char>, BareImportError>,
) -> Effect {
    match scope_of(source) {
        None => Effect::fails(source_error(source, import_sources(), stmt.source.span)),
        Some(scope) => rename_effect(stmt, source).followed_by(
            imports_effect(stmt, source, is_str, scope@, bare),
        ),
    }
}

/// The effect of an import whose source has the value `source`. `is_str`
/// says that the source was a text, of which `source` is the loaded module.
pub open spec fn import_effect(stmt: ModuleImport, source: Value, is_str: bool) -> Effect {
    import_effect_given(stmt, source, is_str, bare_name_of(stmt.source.v))
}

/// Whether the import reads the name that its source expression gives.
pub open spec fn needs_bare_name(stmt: ModuleImport) -> bool {
    stmt.imports is None && stmt.new_name is None
}

/// Putting effects one after another has `nothing` as its unit and is
/// associative.
pub proof fn lemma_followed_by(a: Effect, b: Effect, c: Effect)
    ensures
        a.followed_by(Effect::nothing()) == a,
        Effect::nothing().followed_by(a) == a,
        a.followed_by(b).followed_by(c) == a.followed_by(b.followed_by(c)),
{
    assert(a.followed_by(Effect::nothing()) =~= a);
    assert(Effect::nothing().followed_by(a) =~= a);
    assert(a.followed_by(b).followed_by(c) =~= a.followed_by(b.followed_by(c)));
}

/// The effect of a list is that of all but its last item, followed by that
/// of its last item.
pub proof fn lemma_items_step(scope: Seq<(Seq<char>, Binding)>, items: Seq<ImportItem>, n: int)
    requires
        0 <= n < items.len(),
    ensures
        items_effect(scope, items.take(n + 1)) == items_effect(scope, items.take(n)).followed_by(
            item_effect(scope, items[n]),
        ),
{
    assert(items.take(n + 1).drop_last() =~= items.take(n));
}

/// The effect of a statement, computed: the entries to bind, the warnings
/// to report and the errors to fail with.
#[derive(Debug, PartialEq)]
pub struct Resolution {
    /// The names to bind, in order.
    pub bound: Vec<Entry>,
    /// The warnings to report, in order.
    pub warnings: Vec<Warning>,
    /// The errors, in order.
    pub errors: Vec<SourceDiagnostic>,
}

impl View for Resolution {
    type V = Effect;

    open spec fn view(&self) -> Effect {
        Effect {
            bound: pairs(self.bound@),
            warnings: self.warnings@,
            errors: views(self.errors@),
        }
    }
}

impl Resolution {
    /// No effect.
    pub fn new() -> (resolution: Self)
        ensures
            resolution@ == Effect::nothing(),
    {
        let resolution = Resolution { bound: Vec::new(), warnings: Vec::new(), errors: Vec::new() };
        assert(resolution@ =~= Effect::nothing());
        resolution
    }

    /// Adds a binding.
    pub fn bind(&mut self, name: String, binding: Binding)
        ensures
            final(self)@ == old(self)@.followed_by(Effect::binds(name@, binding)),
    {
        self.bound.push(Entry { name, binding });
        assert(self@ =~= old(self)@.followed_by(Effect::binds(name@, binding)));
    }

    /// Adds a warning.
    pub fn warn(&mut self, warning: Warning)
        ensures
            final(self)@ == old(self)@.followed_by(Effect::warns(warning)),
    {
        self.warnings.push(warning);
        assert(self@ =~= old(self)@.followed_by(Effect::warns(warning)));
    }

    /// Adds an error.
    pub fn fail(&mut self, error: SourceDiagnostic)
        ensures
            final(self)@ == old(self)@.followed_by(Effect::fails(error@)),
    {
        self.errors.push(error);
        assert(self@ =~= old(self)@.followed_by(Effect::fails(error@)));
    }
}

impl ImportItem {
    /// Resolves the item in the scope `source` and adds what it does to
    /// `resolution`.
    pub fn resolve(&self, source: &Scope, resolution: &mut Resolution)
        ensures
            final(resolution)@ == old(resolution)@.followed_by(item_effect(source@, *self)),
    {
        let mut scope: &Scope = source;
        let mut at: usize = 0;
        proof {
            lemma_followed_by(resolution@, Effect::nothing(), Effect::nothing());
        }
        while at < self.path.len()
            invariant
                at <= self.path.len(),
                *resolution == *old(resolution),
                walk(source@, *self, 0) == walk(scope@, *self, at as int),
            decreases self.path.len() - at,
        {
            let component = &self.path[at];
            match scope.get(component.v.as_str()) {
                None => {
                    resolution.fail(unresolved_import_error(component.span));
                    return ;
                },
                Some(binding) => {
                    if at + 1 < self.path.len() {
                        match binding.read().scope() {
                            Some(inner) => {
                                scope = inner;
                            },
                            None => {
                                resolution.fail(
                                    source_error_for(
                                        binding.read(),
                                        "module, function, or type",
                                        component.span,
                                    ),
                                );
                                return ;
                            },
                        }
                    } else {
                        let last = &self.path[self.path.len() - 1];
                        assert(*last == self.path@.last());
                        match &self.new_name {
                            Some(name) => {
                                if *name.v.as_str() == *last.v.as_str() {
                                    resolution.warn(
                                        Warning { kind: WarningKind::RedundantRename, span: name.span },
                                    );
                                }
                                resolution.bind(name.v.0.clone(), binding.clone());
                            },
                            None => {
                                resolution.bind(last.v.0.clone(), binding.clone());
                            },
                        }
                        proof {
                            lemma_followed_by(
                                old(resolution)@,
                                Effect::warns(redundant_rename(self.new_name->0.span)),
                                Effect::binds(self.bound_name(), *binding),
                            );
                        }
                        return ;
                    }
                },
            }
            at += 1;
        }
    }
}

impl ModuleImport {
    /// Computes what the import does when its source has the value
    /// `source` and its source expression gives the name `bare`: nothing is
    /// bound and nothing reported yet. `is_str` says that the source was a
    /// text, of which `source` is the loaded module.
    pub fn resolve_given(&self, source: &Value, is_str: bool, bare: Result<String, BareImportError>)
        -> (resolution: Resolution)
        ensures
            resolution@ == import_effect_given(*self, *source, is_str, name_outcome(bare)),
    {
        let span = self.source.span;
        let mut resolution = Resolution::new();
        let ghost whole = import_effect_given(*self, *source, is_str, name_outcome(bare));
        proof {
            lemma_followed_by(whole, Effect::nothing(), Effect::nothing());
            lemma_followed_by(rename_effect(*self, *source), Effect::nothing(), Effect::nothing());
        }
        let scope: &Scope = match source.scope() {
            Some(scope) => scope,
            None => {
                resolution.fail(source_error_for(source, "path, module, function, or type", span));
                return resolution;
            },
        };
        match &self.new_name {
            Some(name) => {
                let redundant = match &self.source.v {
                    Expr::Ident(ident) => *ident.as_str() == *name.v.as_str(),
                    _ => false,
                };
                if redundant {
                    resolution.warn(Warning { kind: WarningKind::RedundantRename, span: name.span });
                }
                resolution.bind(name.v.0.clone(), Binding::new(source.clone(), name.span));
            },
            None => {},
        }
        assert(resolution@ == rename_effect(*self, *source));
        match &self.imports {
            None => {
                if self.new_name.is_none() {
                    let dynamic = is_str && !(match &self.source.v {
                        Expr::Str(_) => true,
                        _ => false,
                    });
                    match bare {
                        Ok(name) => {
                            if dynamic {
                                resolution.fail(dynamic_import_error(span));
                            } else {
                                let bound_to_itself = match &self.source.v {
                                    Expr::Ident(_) => true,
                                    _ => false,
                                };
                                if bound_to_itself {
                                    resolution.warn(Warning { kind: WarningKind::NoEffect, span });
                                }
                                resolution.bind(name, Binding::new(source.clone(), span));
                            }
                        },
                        Err(BareImportError::Dynamic) => {
                            resolution.fail(dynamic_import_error(span));
                        },
                        Err(_) => {
                            resolution.fail(invalid_module_name_error(span));
                        },
                    }
                }
            },
            Some(Imports::Wildcard) => {
                let items = scope.iter();
                let ghost start = resolution@;
                let mut i: usize = 0;
                while i < items.len()
                    invariant
                        i <= items.len(),
                        items@.len() == scope@.len(),
                        forall|j: int|
                            0 <= j < items@.len() ==> (#[trigger] items@[j]).0@ == scope@[j].0
                                && *items@[j].1 == scope@[j].1,
                        resolution@ == start.followed_by(
                            Effect {
                                bound: scope@.take(i as int),
                                warnings: Seq::empty(),
                                errors: Seq::empty(),
                            },
                        ),
                    decreases items.len() - i,
                {
                    resolution.bind(items[i].0.to_string(), items[i].1.clone());
                    assert(resolution@ =~= start.followed_by(
                        Effect {
                            bound: scope@.take(i + 1),
                            warnings: Seq::empty(),
                            errors: Seq::empty(),
                        },
                    ));
                    i += 1;
                }
                assert(scope@.take(i as int) =~= scope@);
            },
            Some(Imports::Items(items)) => {
                let ghost start = resolution@;
                let mut i: usize = 0;
                while i < items.len()
                    invariant
                        i <= items.len(),
                        resolution@ == start.followed_by(
                            items_effect(scope@, items@.take(i as int)),
                        ),
                    decreases items.len() - i,
                {
                    items[i].resolve(scope, &mut resolution);
                    proof {
                        lemma_items_step(scope@, items@, i as int);
                        lemma_followed_by(
                            start,
                            items_effect(scope@, items@.take(i as int)),
                            item_effect(scope@, items@[i as int]),
                        );
                    }
                    i += 1;
                }
                assert(items@.take(i as int) =~= items@);
            },
        }
        resolution
    }

    /// Computes what the import does when its source has the value
    /// `source`: nothing is bound and nothing reported yet. `is_str` says
    /// that the source was a text, of which `source` is the loaded module.
    /// The name that the source expression gives is worked out only where
    /// the import reads it.
    pub fn resolve(&self, source: &Value, is_str: bool) -> (resolution: Resolution)
        ensures
            resolution@ == import_effect(*self, *source, is_str),
    {
        let bare = if self.imports.is_none() && self.new_name.is_none() {
            self.bare_name()
        } else {
            Err(BareImportError::Dynamic)
        };
        self.resolve_given(source, is_str, bare)
    }

    /// Evaluates the import. `source` is the value of the source
    /// expression or, where that was a text (`is_str`), the module that was
    /// loaded for it. The warnings are reported in any case. If nothing
    /// fails, the names are bound in `scope`, in order; if anything fails,
    /// all errors are returned and `scope` is left as it was.
    pub fn eval(&self, source: Value, is_str: bool, scope: &mut Scope, sink: &mut Sink) -> (result:
        Result<Value, Vec<SourceDiagnostic>>)
        ensures
            final(sink)@ == record_all(old(sink)@, import_effect(*self, source, is_str).warnings),
            import_effect(*self, source, is_str).errors.len() == 0 ==> result is Ok
                && result->Ok_0 == Value::Empty && final(scope)@ == insert_all(
                old(scope)@,
                import_effect(*self, source, is_str).bound,
            ),
            import_effect(*self, source, is_str).errors.len() > 0 ==> result is Err && views(
                result->Err_0@,
            ) == import_effect(*self, source, is_str).errors && final(scope)@ == old(scope)@,
    {
        self.resolve(&source, is_str).apply(scope, sink)
    }
}

impl Resolution {
    /// Puts the effect into practice. The warnings are reported in any
    /// case. If there is no error, the names are bound in `scope`, in
    /// order; if there is one, all errors are returned and `scope` is left
    /// as it was.
    pub fn apply(self, scope: &mut Scope, sink: &mut Sink) -> (result: Result<
        Value,
        Vec<SourceDiagnostic>,
    >)
        ensures
            final(sink)@ == record_all(old(sink)@, self@.warnings),
            self@.errors.len() == 0 ==> result is Ok && result->Ok_0 == Value::Empty
                && final(scope)@ == insert_all(old(scope)@, self@.bound),
            self@.errors.len() > 0 ==> result is Err && views(result->Err_0@) == self@.errors
                && final(scope)@ == old(scope)@,
    {
        sink.report(&self.warnings);
        if self.errors.len() > 0 {
            return Err(self.errors);
        }
        bind_all(&self.bound, scope);
        Ok(Value::Empty)
    }
}

/// Binds the entries in order.
pub fn bind_all(entries: &Vec<Entry>, scope: &mut Scope)
    ensures
        final(scope)@ == insert_all(old(scope)@, pairs(entries@)),
{
    let mut i: usize = 0;
    while i < entries.len()
        invariant
            i <= entries.len(),
            scope@ == insert_all(old(scope)@, pairs(entries@).take(i as int)),
        decreases entries.len() - i,
    {
        scope.bind(entries[i].name.clone(), entries[i].binding.clone());
        assert(pairs(entries@).take(i + 1).drop_last() =~= pairs(entries@).take(i as int));
        i += 1;
    }
    assert(pairs(entries@).take(i as int) =~= pairs(entries@));
}

} // verus!

verus! {

/// Where an import or include takes its module from.
#[derive(Debug, PartialEq)]
pub enum Source {
    /// A path or package specification: the module has to be loaded.
    Path(String),
    /// A value that is used as it is.
    Value(Value),
}

/// The error for a value that an include cannot start from. Only a module
/// has a body to include.
pub open spec fn include_error(value: Value, span: Span) -> Diagnostic {
    if value is Func && scope_of(value) is None {
        unimportable_callable(span)
    } else {
        invalid_source(include_sources(), value.spec_kind(), value.spec_ty(), span)
    }
}

impl ModuleImport {
    /// Decides what the value of the source expression stands for. A text
    /// is a path that has to be loaded. A module, a type descriptor and a
    /// callable with a scope are used as they are. Anything else is an
    /// error at the source expression.
    pub fn source(&self, value: Value) -> (source: Result<Source, Vec<SourceDiagnostic>>)
        ensures
            value matches Value::Str(text) ==> source is Ok && source->Ok_0 == Source::Path(text),
            !(value is Str) && scope_of(value) is Some ==> source is Ok && source->Ok_0
                == Source::Value(value),
            !(value is Str) && scope_of(value) is None ==> source is Err && views(source->Err_0@)
                == seq![source_error(value, import_sources(), self.source.span)],
    {
        match value {
            Value::Str(text) => Ok(Source::Path(text)),
            value => {
                if value.scope().is_some() {
                    Ok(Source::Value(value))
                } else {
                    Err(
                        single(
                            source_error_for(
                                &value,
                                "path, module, function, or type",
                                self.source.span,
                            ),
                        ),
                    )
                }
            },
        }
    }
}

impl ModuleInclude {
    /// Builds [`include_error`].
    fn error_for(&self, value: &Value) -> (error: SourceDiagnostic)
        ensures
            error@ == include_error(*value, self.source.span),
    {
        let callable = match value {
            Value::Func(_) => true,
            _ => false,
        };
        if callable && value.scope().is_none() {
            unimportable_callable_error(self.source.span)
        } else {
            invalid_source_error("path or module", value.kind(), value.ty(), self.source.span)
        }
    }

    /// Decides what the value of the source expression stands for. A text
    /// is a path that has to be loaded, a module is used as it is, and
    /// anything else is an error at the source expression.
    pub fn source(&self, value: Value) -> (source: Result<Source, Vec<SourceDiagnostic>>)
        ensures
            value matches Value::Str(text) ==> source is Ok && source->Ok_0 == Source::Path(text),
            value is Module ==> source is Ok && source->Ok_0 == Source::Value(value),
            !(value is Str) && !(value is Module) ==> source is Err && views(source->Err_0@)
                == seq![include_error(value, self.source.span)],
    {
        match value {
            Value::Str(text) => Ok(Source::Path(text)),
            Value::Module(module) => Ok(Source::Value(Value::Module(module))),
            value => Err(single(self.error_for(&value))),
        }
    }

    /// Evaluates the include: the rendered body of the module that the
    /// source stands for. `source` is the value of the source expression
    /// or, where that was a text, the module that was loaded for it.
    pub fn eval(&self, source: Value) -> (result: Result<Content, Vec<SourceDiagnostic>>)
        ensures
            source matches Value::Module(module) ==> result is Ok && result->Ok_0
                == module.inner.content,
            !(source is Module) ==> result is Err && views(result->Err_0@) == seq![
                include_error(source, self.source.span),
            ],
    {
        match source {
            Value::Module(module) => Ok(module.content()),
            value => Err(single(self.error_for(&value))),
        }
    }
}

} // verus!
