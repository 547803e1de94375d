//! What holds of imports in general, proved from the definitions.

use vstd::prelude::*;
use crate::assoc::{
    distinct_keys, has_key, insert, insert_all, lemma_insert_distinct, lemma_lookup_insert,
    lemma_lookup_insert_all, lookup,
};
use crate::ast::{Expr, ImportItem, Imports, ModuleImport};
use crate::cache::SlotView;
use crate::diag::{
    cyclic_import, dynamic_import, record, unresolved_import, Diagnostic, ErrorKind, Warning,
};
use crate::engine::{file_step, traced_outcome, FileStepView};
use crate::eval::{
    import_effect, item_effect, items_effect, lemma_followed_by, nested_sources,
    redundant_rename, rename_effect, source_error, walk, Effect,
};
use crate::file::FileIdentityView;
use crate::span::Span;
use crate::value::{scope_of, Binding, Module, Value};

verus! {

/// A file that is imported while it is under evaluation, however many
/// files lie between, fails with a cyclic import at the place of the import
/// that closes the cycle, whatever the cache holds, and is not evaluated.
pub proof fn lemma_cycle_is_detected(
    route: Seq<FileIdentityView>,
    chain: Seq<FileIdentityView>,
    cache: Seq<((FileIdentityView, u128), SlotView)>,
    id: FileIdentityView,
    fingerprint: u128,
    span: Span,
)
    ensures
        file_step(route.push(id) + chain, cache, id, Ok(fingerprint), span) == FileStepView::Done(
            Err(seq![cyclic_import(span)]),
        ),
        cyclic_import(span).kind == ErrorKind::CyclicImport,
        cyclic_import(span).span == span,
{
    let whole = route.push(id) + chain;
    assert(whole[route.len() as int] == id);
    assert(whole.contains(id));
}

/// A file that is imported again under the fingerprint under which it was
/// evaluated is not evaluated again: the import replays the outcome that
/// was recorded.
pub proof fn lemma_second_import_is_replayed(
    route: Seq<FileIdentityView>,
    cache: Seq<((FileIdentityView, u128), SlotView)>,
    id: FileIdentityView,
    fingerprint: u128,
    outcome: Result<Module, Seq<Diagnostic>>,
    span: Span,
)
    requires
        distinct_keys(cache),
        !route.contains(id),
    ensures
        file_step(
            route,
            insert(cache, (id, fingerprint), SlotView::Done(outcome)),
            id,
            Ok(fingerprint),
            span,
        ) == FileStepView::Done(traced_outcome(outcome, span)),
{
    lemma_lookup_insert(cache, (id, fingerprint), SlotView::Done(outcome), (id, fingerprint));
}

/// While the evaluation of a file under a fingerprint is in flight, no
/// import starts a second one: it is told to wait.
pub proof fn lemma_one_evaluation_in_flight(
    route: Seq<FileIdentityView>,
    cache: Seq<((FileIdentityView, u128), SlotView)>,
    id: FileIdentityView,
    fingerprint: u128,
    span: Span,
)
    requires
        distinct_keys(cache),
        !route.contains(id),
    ensures
        file_step(
            route,
            insert(cache, (id, fingerprint), SlotView::InFlight),
            id,
            Ok(fingerprint),
            span,
        ) == FileStepView::Wait,
{
    lemma_lookup_insert(cache, (id, fingerprint), SlotView::InFlight, (id, fingerprint));
}

/// Recording an outcome under one key leaves what is held under every
/// other key: evaluations of a file under different fingerprints do not
/// collide.
pub proof fn lemma_other_keys_are_kept(
    cache: Seq<((FileIdentityView, u128), SlotView)>,
    key: (FileIdentityView, u128),
    slot: SlotView,
    other: (FileIdentityView, u128),
)
    requires
        distinct_keys(cache),
        other != key,
    ensures
        lookup(insert(cache, key, slot), other) == lookup(cache, other),
{
    lemma_lookup_insert(cache, key, slot, other);
}

/// A wildcard import of a source with the scope `source_scope` into a
/// scope with the bindings `before` fails with nothing and leaves every
/// name of the source bound to the binding that the source has for it,
/// definition site included. Every other name keeps its binding.
pub proof fn lemma_wildcard_binds_every_name(
    stmt: ModuleImport,
    source: Value,
    is_str: bool,
    before: Seq<(Seq<char>, Binding)>,
    name: Seq<char>,
)
    requires
        stmt.imports == Some(Imports::Wildcard),
        stmt.new_name is None,
        scope_of(source) is Some,
        distinct_keys(scope_of(source)->0@),
        distinct_keys(before),
    ensures
        import_effect(stmt, source, is_str).errors.len() == 0,
        import_effect(stmt, source, is_str).bound == scope_of(source)->0@,
        lookup(insert_all(before, import_effect(stmt, source, is_str).bound), name) == if has_key(
            scope_of(source)->0@,
            name,
        ) {
            lookup(scope_of(source)->0@, name)
        } else {
            lookup(before, name)
        },
{
    let scope = scope_of(source)->0@;
    let effect = import_effect(stmt, source, is_str);
    assert(effect.bound =~= scope);
    assert(effect.errors =~= Seq::empty());
    lemma_lookup_insert_all(before, scope, name);
}

/// A rename of the source is reported as redundant exactly when the source
/// is written as the identifier that it is renamed to, and then once.
pub proof fn lemma_redundant_rename_warns_once(stmt: ModuleImport, source: Value)
    requires
        stmt.new_name is Some,
    ensures
        rename_effect(stmt, source).warnings == if stmt.source.v matches Expr::Ident(ident)
            && ident@ == stmt.new_name->0.v@ {
            seq![redundant_rename(stmt.new_name->0.span)]
        } else {
            Seq::<Warning>::empty()
        },
        rename_effect(stmt, source).errors.len() == 0,
        rename_effect(stmt, source).bound == seq![
            (stmt.new_name->0.v@, Binding { value: source, span: stmt.new_name->0.span }),
        ],
{
    assert(rename_effect(stmt, source).warnings =~= if stmt.source.v matches Expr::Ident(ident)
        && ident@ == stmt.new_name->0.v@ {
        seq![redundant_rename(stmt.new_name->0.span)]
    } else {
        Seq::<Warning>::empty()
    });
    assert(rename_effect(stmt, source).bound =~= seq![
        (stmt.new_name->0.v@, Binding { value: source, span: stmt.new_name->0.span }),
    ]);
    assert(rename_effect(stmt, source).errors =~= Seq::empty());
}

/// On the way through a path, a segment that is bound to a value without a
/// scope fails the item at that segment: as a callable that cannot be
/// imported from where the value is a callable, as a value of the wrong
/// kind otherwise. The two errors differ.
pub proof fn lemma_segment_without_scope(
    scope: Seq<(Seq<char>, Binding)>,
    item: ImportItem,
    from: int,
    binding: Binding,
)
    requires
        0 <= from,
        from + 1 < item.path@.len(),
        lookup(scope, item.path@[from].v@) == Some(binding),
        scope_of(binding.value) is None,
    ensures
        walk(scope, item, from) == Effect::fails(
            source_error(binding.value, nested_sources(), item.path@[from].span),
        ),
        source_error(binding.value, nested_sources(), item.path@[from].span).span
            == item.path@[from].span,
        source_error(binding.value, nested_sources(), item.path@[from].span).kind == if binding.value
            is Func {
            ErrorKind::UnimportableCallable
        } else {
            ErrorKind::InvalidImportSource { found: binding.value.spec_kind() }
        },
{
}

/// An item with a path gives one binding and no error, or one error, no
/// binding and no warning.
pub proof fn lemma_item_binds_or_fails(scope: Seq<(Seq<char>, Binding)>, item: ImportItem, from: int)
    requires
        0 <= from < item.path@.len(),
    ensures
        (walk(scope, item, from).errors.len() == 0 && walk(scope, item, from).bound.len() == 1) || (
        walk(scope, item, from).errors.len() == 1 && walk(scope, item, from).bound.len() == 0
            && walk(scope, item, from).warnings.len() == 0),
    decreases item.path@.len() - from,
{
    let path = item.path@;
    match lookup(scope, path[from].v@) {
        None => {},
        Some(binding) => {
            if from + 1 < path.len() {
                match scope_of(binding.value) {
                    Some(inner) => {
                        lemma_item_binds_or_fails(inner@, item, from + 1);
                    },
                    None => {},
                }
            }
        },
    }
}

/// The effect of a list of items is the effect of its first part followed
/// by the effect of the rest: every item is resolved, whichever items fail,
/// and the errors of all of them are kept in order.
pub proof fn lemma_items_are_independent(
    scope: Seq<(Seq<char>, Binding)>,
    first: Seq<ImportItem>,
    rest: Seq<ImportItem>,
)
    ensures
        items_effect(scope, first + rest) == items_effect(scope, first).followed_by(
            items_effect(scope, rest),
        ),
    decreases rest.len(),
{
    if rest.len() == 0 {
        assert(first + rest =~= first);
        lemma_followed_by(
            items_effect(scope, first),
            Effect::nothing(),
            Effect::nothing(),
        );
    } else {
        assert((first + rest).drop_last() =~= first + rest.drop_last());
        assert((first + rest).last() == rest.last());
        lemma_items_are_independent(scope, first, rest.drop_last());
        lemma_followed_by(
            items_effect(scope, first),
            items_effect(scope, rest.drop_last()),
            item_effect(scope, rest.last()),
        );
    }
}

/// An item whose first segment the source does not hold fails as
/// unresolved at that segment.
pub proof fn lemma_missing_name_is_unresolved(scope: Seq<(Seq<char>, Binding)>, item: ImportItem)
    requires
        item.path@.len() > 0,
        lookup(scope, item.path@[0].v@) is None,
    ensures
        item_effect(scope, item) == Effect::fails(unresolved_import(item.path@[0].span)),
        unresolved_import(item.path@[0].span).kind == ErrorKind::UnresolvedImport,
{
}

/// An import of a computed path that neither renames the module nor lists
/// items fails: it would need a name. With `as name` it fails with nothing
/// and binds the name to the module.
pub proof fn lemma_dynamic_import_needs_name(stmt: ModuleImport, source: Value)
    requires
        stmt.source.v is Computed,
        stmt.imports is None,
        scope_of(source) is Some,
    ensures
        stmt.new_name is None ==> import_effect(stmt, source, true) == Effect::fails(
            dynamic_import(stmt.source.span),
        ),
        stmt.new_name is Some ==> import_effect(stmt, source, true) == Effect::binds(
            stmt.new_name->0.v@,
            Binding { value: source, span: stmt.new_name->0.span },
        ),
        dynamic_import(stmt.source.span).kind == ErrorKind::DynamicImportRequiresName,
{
    if stmt.new_name is None {
        assert(import_effect(stmt, source, true) =~= Effect::fails(dynamic_import(stmt.source.span)));
    } else {
        assert(import_effect(stmt, source, true) =~= Effect::binds(
            stmt.new_name->0.v@,
            Binding { value: source, span: stmt.new_name->0.span },
        ));
    }
}

/// Binding a name again replaces what it was bound to and keeps the place
/// of the name; no other name changes.
pub proof fn lemma_bind_shadows(
    scope: Seq<(Seq<char>, Binding)>,
    name: Seq<char>,
    binding: Binding,
    other: Seq<char>,
)
    requires
        distinct_keys(scope),
    ensures
        distinct_keys(insert(scope, name, binding)),
        lookup(insert(scope, name, binding), name) == Some(binding),
        other != name ==> lookup(insert(scope, name, binding), other) == lookup(scope, other),
        has_key(scope, name) ==> insert(scope, name, binding).len() == scope.len(),
{
    lemma_insert_distinct(scope, name, binding);
    lemma_lookup_insert(scope, name, binding, other);
}

/// A sink records no warning twice: reporting a warning that is recorded
/// changes nothing.
pub proof fn lemma_warning_recorded_once(warnings: Seq<Warning>, warning: Warning)
    requires
        warnings.no_duplicates(),
    ensures
        record(warnings, warning).no_duplicates(),
        record(warnings, warning).contains(warning),
        record(record(warnings, warning), warning) == record(warnings, warning),
{
    let after = record(warnings, warning);
    if warnings.contains(warning) {
    } else {
        assert(after[warnings.len() as int] == warning);
        assert forall|i: int, j: int| 0 <= i < after.len() && 0 <= j < after.len() && i != j implies after[i]
            != after[j] by {
            if i < warnings.len() && j < warnings.len() {
            } else if i < warnings.len() {
                assert(warnings.contains(warnings[i]));
            } else {
                assert(warnings.contains(warnings[j]));
            }
        }
    }
}

} // verus!
