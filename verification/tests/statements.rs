use import_resolver::ast::{
    BareImportError, Expr, ImportItem, Imports, ModuleImport, ModuleInclude,
};
use import_resolver::diag::{ErrorKind, Sink, Warning, WarningKind};
use import_resolver::eval::Source;
use import_resolver::ident::Ident;
use import_resolver::scope::Scope;
use import_resolver::span::{Span, Spanned};
use import_resolver::value::{Binding, Content, Func, Kind, Module, Type, Value};

fn span(n: u32) -> Span {
    Span::new(1, n, n + 1)
}

fn ident(name: &str, at: u32) -> Spanned<Ident> {
    Spanned::new(Ident(name.to_string()), span(at))
}

fn path(names: &[(&str, u32)]) -> Vec<Spanned<Ident>> {
    names.iter().map(|(name, at)| ident(name, *at)).collect()
}

fn simple(names: &[(&str, u32)]) -> ImportItem {
    ImportItem { path: path(names), new_name: None }
}

fn renamed(names: &[(&str, u32)], name: &str, at: u32) -> ImportItem {
    ImportItem { path: path(names), new_name: Some(ident(name, at)) }
}

fn statement(source: Expr, new_name: Option<Spanned<Ident>>, imports: Option<Imports>) -> ModuleImport {
    ModuleImport { source: Spanned::new(source, span(100)), new_name, imports }
}

fn text(literal: &str) -> Expr {
    Expr::Str(literal.to_string())
}

/// A module with `a` = 1 defined at 11 and `b` = 2 defined at 12.
fn two_numbers() -> Value {
    let mut scope = Scope::new();
    scope.bind("a".to_string(), Binding::new(Value::Int(1), span(11)));
    scope.bind("b".to_string(), Binding::new(Value::Int(2), span(12)));
    Value::Module(Module::anonymous(scope, Content::new("two numbers")))
}

/// A module with a number `num`, a closure `closure`, a submodule `sub`
/// that holds `inner`, `c` and `a`.
fn nested() -> Value {
    let mut sub = Scope::new();
    sub.bind("inner".to_string(), Binding::new(Value::Int(5), span(21)));
    let mut scope = Scope::new();
    scope.bind("num".to_string(), Binding::new(Value::Int(3), span(31)));
    scope.bind("closure".to_string(), Binding::new(Value::Func(Func::closure("closure")), span(32)));
    scope.bind("sub".to_string(), Binding::new(Value::Module(Module::new("sub", sub)), span(33)));
    scope.bind("a".to_string(), Binding::new(Value::Int(1), span(34)));
    scope.bind("c".to_string(), Binding::new(Value::Int(4), span(35)));
    Value::Module(Module::new("mod", scope))
}

fn run(stmt: &ModuleImport, source: Value, is_str: bool) -> (Result<Value, Vec<ErrorKind>>, Scope, Vec<Warning>) {
    let mut scope = Scope::new();
    let mut sink = Sink::new();
    let result = stmt.eval(source, is_str, &mut scope, &mut sink);
    let result = result.map_err(|errors| errors.iter().map(|error| error.kind).collect());
    (result, scope, sink.warnings())
}

#[test]
fn wildcard_import_binds_every_name_with_its_definition_span() {
    let stmt = statement(text("two.typ"), None, Some(Imports::Wildcard));
    let (result, scope, warnings) = run(&stmt, two_numbers(), true);
    assert_eq!(result, Ok(Value::Empty));
    assert!(warnings.is_empty());
    assert_eq!(scope.len(), 2);
    let items = scope.iter();
    assert_eq!(items[0].0, "a");
    assert_eq!(*items[0].1, Binding::new(Value::Int(1), span(11)));
    assert_eq!(items[1].0, "b");
    assert_eq!(*items[1].1, Binding::new(Value::Int(2), span(12)));
}

#[test]
fn wildcard_import_overwrites_names_that_are_bound() {
    let stmt = statement(text("two.typ"), None, Some(Imports::Wildcard));
    let mut scope = Scope::new();
    scope.bind("b".to_string(), Binding::new(Value::Bool(false), span(1)));
    scope.bind("z".to_string(), Binding::new(Value::Int(26), span(2)));
    let mut sink = Sink::new();
    let result = stmt.eval(two_numbers(), true, &mut scope, &mut sink);
    assert_eq!(result, Ok(Value::Empty));
    let names: Vec<&str> = scope.iter().iter().map(|item| item.0).collect();
    assert_eq!(names, vec!["b", "z", "a"]);
    assert_eq!(*scope.get("b").unwrap(), Binding::new(Value::Int(2), span(12)));
    assert_eq!(*scope.get("z").unwrap(), Binding::new(Value::Int(26), span(2)));
    assert!(sink.warnings().is_empty());
}

#[test]
fn wildcard_import_of_an_empty_module_binds_nothing() {
    let stmt = statement(text("empty.typ"), None, Some(Imports::Wildcard));
    let module = Value::Module(Module::anonymous(Scope::new(), Content::empty()));
    let (result, scope, warnings) = run(&stmt, module, true);
    assert_eq!(result, Ok(Value::Empty));
    assert_eq!(scope.len(), 0);
    assert!(warnings.is_empty());
}

#[test]
fn rename_to_the_same_identifier_warns_once() {
    let stmt = statement(Expr::Ident(Ident("a".to_string())), Some(ident("a", 7)), None);
    let (result, scope, warnings) = run(&stmt, two_numbers(), false);
    assert_eq!(result, Ok(Value::Empty));
    assert_eq!(warnings, vec![Warning { kind: WarningKind::RedundantRename, span: span(7) }]);
    assert_eq!(*scope.get("a").unwrap(), Binding::new(two_numbers(), span(7)));
}

#[test]
fn rename_to_another_name_does_not_warn() {
    let stmt = statement(Expr::Ident(Ident("a".to_string())), Some(ident("b", 7)), None);
    let (result, scope, warnings) = run(&stmt, two_numbers(), false);
    assert_eq!(result, Ok(Value::Empty));
    assert!(warnings.is_empty());
    assert_eq!(scope.len(), 1);
    assert_eq!(*scope.get("b").unwrap(), Binding::new(two_numbers(), span(7)));
}

#[test]
fn rename_of_a_path_does_not_warn() {
    let stmt = statement(text("a.typ"), Some(ident("a", 7)), None);
    let (result, scope, warnings) = run(&stmt, two_numbers(), true);
    assert_eq!(result, Ok(Value::Empty));
    assert!(warnings.is_empty());
    assert!(scope.get("a").is_some());
}

#[test]
fn nested_path_through_a_number_is_an_invalid_source() {
    let stmt = statement(
        text("mod.typ"),
        None,
        Some(Imports::Items(vec![simple(&[("num", 40), ("fn", 41)])])),
    );
    let mut scope = Scope::new();
    let mut sink = Sink::new();
    let errors = stmt.eval(nested(), true, &mut scope, &mut sink).unwrap_err();
    assert_eq!(errors.len(), 1);
    assert_eq!(errors[0].kind, ErrorKind::InvalidImportSource { found: Kind::Int });
    assert_eq!(errors[0].span, span(40));
    assert_eq!(errors[0].message, "expected module, function, or type, found integer");
    assert!(errors[0].hints.is_empty());
    assert_eq!(scope.len(), 0);
}

#[test]
fn nested_path_through_a_closure_is_an_unimportable_callable() {
    let stmt = statement(
        text("mod.typ"),
        None,
        Some(Imports::Items(vec![simple(&[("closure", 40), ("fn", 41)])])),
    );
    let mut scope = Scope::new();
    let mut sink = Sink::new();
    let errors = stmt.eval(nested(), true, &mut scope, &mut sink).unwrap_err();
    assert_eq!(errors.len(), 1);
    assert_eq!(errors[0].kind, ErrorKind::UnimportableCallable);
    assert_eq!(errors[0].span, span(40));
    assert_eq!(errors[0].message, "cannot import from user-defined functions");
}

#[test]
fn nested_path_descends_into_submodules() {
    let stmt = statement(
        text("mod.typ"),
        None,
        Some(Imports::Items(vec![simple(&[("sub", 40), ("inner", 41)])])),
    );
    let (result, scope, warnings) = run(&stmt, nested(), true);
    assert_eq!(result, Ok(Value::Empty));
    assert!(warnings.is_empty());
    assert_eq!(scope.len(), 1);
    assert_eq!(*scope.get("inner").unwrap(), Binding::new(Value::Int(5), span(21)));
}

#[test]
fn nested_path_with_a_missing_last_segment_is_unresolved_there() {
    let stmt = statement(
        text("mod.typ"),
        None,
        Some(Imports::Items(vec![simple(&[("sub", 40), ("nope", 41)])])),
    );
    let mut scope = Scope::new();
    let mut sink = Sink::new();
    let errors = stmt.eval(nested(), true, &mut scope, &mut sink).unwrap_err();
    assert_eq!(errors.len(), 1);
    assert_eq!(errors[0].kind, ErrorKind::UnresolvedImport);
    assert_eq!(errors[0].span, span(41));
    assert_eq!(errors[0].message, "unresolved import");
}

#[test]
fn all_unresolved_items_are_reported_and_nothing_is_bound() {
    let stmt = statement(
        text("pkg.typ"),
        None,
        Some(Imports::Items(vec![
            simple(&[("a", 50)]),
            simple(&[("missing1", 51)]),
            simple(&[("c", 52)]),
            simple(&[("missing2", 53)]),
        ])),
    );
    let mut scope = Scope::new();
    scope.bind("kept".to_string(), Binding::new(Value::Int(0), span(1)));
    let mut sink = Sink::new();
    let errors = stmt.eval(nested(), true, &mut scope, &mut sink).unwrap_err();
    assert_eq!(errors.len(), 2);
    assert_eq!(errors[0].kind, ErrorKind::UnresolvedImport);
    assert_eq!(errors[0].span, span(51));
    assert_eq!(errors[1].kind, ErrorKind::UnresolvedImport);
    assert_eq!(errors[1].span, span(53));
    assert_eq!(scope.len(), 1);
    assert!(scope.get("a").is_none());
    assert!(scope.get("c").is_none());
    assert!(scope.get("kept").is_some());
}

#[test]
fn a_failed_import_with_rename_binds_nothing() {
    let stmt = statement(
        text("pkg.typ"),
        Some(ident("pkg", 7)),
        Some(Imports::Items(vec![simple(&[("a", 50)]), simple(&[("missing", 51)])])),
    );
    let (result, scope, _) = run(&stmt, nested(), true);
    assert_eq!(result, Err(vec![ErrorKind::UnresolvedImport]));
    assert_eq!(scope.len(), 0);
}

#[test]
fn items_are_bound_in_order_with_renames() {
    let stmt = statement(
        text("mod.typ"),
        Some(ident("m", 7)),
        Some(Imports::Items(vec![
            renamed(&[("a", 50)], "first", 60),
            simple(&[("c", 51)]),
            renamed(&[("sub", 52), ("inner", 53)], "inner", 61),
        ])),
    );
    let (result, scope, warnings) = run(&stmt, nested(), true);
    assert_eq!(result, Ok(Value::Empty));
    let names: Vec<&str> = scope.iter().iter().map(|item| item.0).collect();
    assert_eq!(names, vec!["m", "first", "c", "inner"]);
    assert_eq!(*scope.get("m").unwrap(), Binding::new(nested(), span(7)));
    assert_eq!(*scope.get("first").unwrap(), Binding::new(Value::Int(1), span(34)));
    assert_eq!(*scope.get("c").unwrap(), Binding::new(Value::Int(4), span(35)));
    assert_eq!(*scope.get("inner").unwrap(), Binding::new(Value::Int(5), span(21)));
    assert_eq!(warnings, vec![Warning { kind: WarningKind::RedundantRename, span: span(61) }]);
}

#[test]
fn warnings_of_a_failing_statement_are_still_reported() {
    let stmt = statement(
        text("mod.typ"),
        None,
        Some(Imports::Items(vec![renamed(&[("a", 50)], "a", 60), simple(&[("missing", 51)])])),
    );
    let (result, scope, warnings) = run(&stmt, nested(), true);
    assert_eq!(result, Err(vec![ErrorKind::UnresolvedImport]));
    assert_eq!(scope.len(), 0);
    assert_eq!(warnings, vec![Warning { kind: WarningKind::RedundantRename, span: span(60) }]);
}

#[test]
fn an_item_without_segments_does_nothing() {
    let stmt = statement(text("mod.typ"), None, Some(Imports::Items(vec![simple(&[])])));
    let (result, scope, warnings) = run(&stmt, nested(), true);
    assert_eq!(result, Ok(Value::Empty));
    assert_eq!(scope.len(), 0);
    assert!(warnings.is_empty());
}

#[test]
fn dynamic_import_without_a_name_fails() {
    let stmt = statement(Expr::Computed, None, None);
    let mut scope = Scope::new();
    let mut sink = Sink::new();
    let errors = stmt.eval(two_numbers(), true, &mut scope, &mut sink).unwrap_err();
    assert_eq!(errors.len(), 1);
    assert_eq!(errors[0].kind, ErrorKind::DynamicImportRequiresName);
    assert_eq!(errors[0].span, span(100));
    assert_eq!(errors[0].message, "dynamic import requires an explicit name");
    assert_eq!(errors[0].hints, vec!["you can name the import with `as`".to_string()]);
    assert_eq!(scope.len(), 0);
}

#[test]
fn dynamic_import_with_a_name_binds_the_name() {
    let stmt = statement(Expr::Computed, Some(ident("Name", 7)), None);
    let (result, scope, warnings) = run(&stmt, two_numbers(), true);
    assert_eq!(result, Ok(Value::Empty));
    assert!(warnings.is_empty());
    assert_eq!(scope.len(), 1);
    assert_eq!(*scope.get("Name").unwrap(), Binding::new(two_numbers(), span(7)));
}

#[test]
fn text_held_by_an_identifier_is_a_dynamic_import() {
    let stmt = statement(Expr::Ident(Ident("path".to_string())), None, None);
    let (result, scope, warnings) = run(&stmt, two_numbers(), true);
    assert_eq!(result, Err(vec![ErrorKind::DynamicImportRequiresName]));
    assert_eq!(scope.len(), 0);
    assert!(warnings.is_empty());
}

#[test]
fn bare_import_of_a_path_binds_the_file_stem() {
    let stmt = statement(text("utils/helper.typ"), None, None);
    assert_eq!(stmt.bare_name(), Ok("helper".to_string()));
    let (result, scope, warnings) = run(&stmt, two_numbers(), true);
    assert_eq!(result, Ok(Value::Empty));
    assert!(warnings.is_empty());
    assert_eq!(*scope.get("helper").unwrap(), Binding::new(two_numbers(), span(100)));
}

#[test]
fn bare_import_of_a_package_binds_the_package_name() {
    let stmt = statement(text("@preview/example:0.1.0"), None, None);
    assert_eq!(stmt.bare_name(), Ok("example".to_string()));
    let (result, scope, _) = run(&stmt, two_numbers(), true);
    assert_eq!(result, Ok(Value::Empty));
    assert!(scope.get("example").is_some());
}

#[test]
fn bare_import_of_a_path_that_is_no_identifier_fails() {
    let stmt = statement(text("my file.typ"), None, None);
    assert_eq!(stmt.bare_name(), Err(BareImportError::PathInvalid));
    let mut scope = Scope::new();
    let mut sink = Sink::new();
    let errors = stmt.eval(two_numbers(), true, &mut scope, &mut sink).unwrap_err();
    assert_eq!(errors.len(), 1);
    assert_eq!(errors[0].kind, ErrorKind::InvalidModuleName);
    assert_eq!(errors[0].span, span(100));
    assert_eq!(errors[0].message, "module name would not be a valid identifier");
    assert_eq!(errors[0].hints, vec!["you can rename the import with `as`".to_string()]);
    assert_eq!(scope.len(), 0);
}

#[test]
fn bare_names() {
    assert_eq!(statement(Expr::Ident(Ident("m".to_string())), None, None).bare_name(), Ok("m".to_string()));
    assert_eq!(statement(Expr::FieldAccess(Ident("f".to_string())), None, None).bare_name(), Ok("f".to_string()));
    assert_eq!(statement(Expr::Computed, None, None).bare_name(), Err(BareImportError::Dynamic));
    assert_eq!(statement(text("@nope"), None, None).bare_name(), Err(BareImportError::PackageInvalid));
    assert_eq!(statement(text(""), None, None).bare_name(), Err(BareImportError::PathInvalid));
    assert_eq!(statement(text("a/b/c.d.typ"), None, None).bare_name(), Err(BareImportError::PathInvalid));
    assert_eq!(statement(text("../lib.typ"), None, None).bare_name(), Ok("lib".to_string()));
}

#[test]
fn bare_import_of_an_identifier_has_no_effect() {
    let stmt = statement(Expr::Ident(Ident("m".to_string())), None, None);
    let (result, scope, warnings) = run(&stmt, two_numbers(), false);
    assert_eq!(result, Ok(Value::Empty));
    assert_eq!(warnings, vec![Warning { kind: WarningKind::NoEffect, span: span(100) }]);
    assert_eq!(*scope.get("m").unwrap(), Binding::new(two_numbers(), span(100)));
}

#[test]
fn bare_import_of_a_field_access_binds_the_field() {
    let stmt = statement(Expr::FieldAccess(Ident("calc".to_string())), None, None);
    let (result, scope, warnings) = run(&stmt, two_numbers(), false);
    assert_eq!(result, Ok(Value::Empty));
    assert!(warnings.is_empty());
    assert!(scope.get("calc").is_some());
}

#[test]
fn import_from_a_number_is_an_invalid_source() {
    let stmt = statement(Expr::Computed, None, Some(Imports::Wildcard));
    let mut scope = Scope::new();
    let mut sink = Sink::new();
    let errors = stmt.eval(Value::Int(3), false, &mut scope, &mut sink).unwrap_err();
    assert_eq!(errors.len(), 1);
    assert_eq!(errors[0].kind, ErrorKind::InvalidImportSource { found: Kind::Int });
    assert_eq!(errors[0].span, span(100));
    assert_eq!(errors[0].message, "expected path, module, function, or type, found integer");
}

#[test]
fn import_from_a_closure_is_an_unimportable_callable() {
    let stmt = statement(Expr::Computed, Some(ident("f", 7)), None);
    let (result, scope, warnings) = run(&stmt, Value::Func(Func::closure("f")), false);
    assert_eq!(result, Err(vec![ErrorKind::UnimportableCallable]));
    assert_eq!(scope.len(), 0);
    assert!(warnings.is_empty());
}

#[test]
fn import_from_a_type_and_a_native_function() {
    let mut defs = Scope::new();
    defs.bind("max".to_string(), Binding::new(Value::Int(9), span(3)));
    let stmt = statement(Expr::Ident(Ident("int".to_string())), None, Some(Imports::Wildcard));
    let (result, scope, _) = run(&stmt, Value::Type(Type::new("int", defs.clone())), false);
    assert_eq!(result, Ok(Value::Empty));
    assert_eq!(*scope.get("max").unwrap(), Binding::new(Value::Int(9), span(3)));
    let (result, scope, _) = run(&stmt, Value::Func(Func::native("calc", defs)), false);
    assert_eq!(result, Ok(Value::Empty));
    assert_eq!(*scope.get("max").unwrap(), Binding::new(Value::Int(9), span(3)));
}

#[test]
fn source_classification_for_import() {
    let stmt = statement(Expr::Computed, None, None);
    assert_eq!(stmt.source(Value::Str("a.typ".to_string())), Ok(Source::Path("a.typ".to_string())));
    assert_eq!(stmt.source(two_numbers()), Ok(Source::Value(two_numbers())));
    let ty = Value::Type(Type::new("int", Scope::new()));
    assert!(matches!(stmt.source(ty), Ok(Source::Value(Value::Type(_)))));
    let native = Value::Func(Func::native("calc", Scope::new()));
    assert!(matches!(stmt.source(native), Ok(Source::Value(Value::Func(_)))));
    let errors = stmt.source(Value::Func(Func::closure("f"))).unwrap_err();
    assert_eq!(errors[0].kind, ErrorKind::UnimportableCallable);
    assert_eq!(errors[0].span, span(100));
    let errors = stmt.source(Value::Bool(true)).unwrap_err();
    assert_eq!(errors[0].kind, ErrorKind::InvalidImportSource { found: Kind::Bool });
    assert_eq!(errors[0].message, "expected path, module, function, or type, found boolean");
}

#[test]
fn include_returns_the_body_of_the_module() {
    let stmt = ModuleInclude { source: Spanned::new(text("two.typ"), span(100)) };
    assert_eq!(stmt.eval(two_numbers()), Ok(Content::new("two numbers")));
    assert_eq!(
        stmt.source(Value::Str("two.typ".to_string())),
        Ok(Source::Path("two.typ".to_string()))
    );
    assert_eq!(stmt.source(two_numbers()), Ok(Source::Value(two_numbers())));
}

#[test]
fn include_rejects_what_has_no_body() {
    let stmt = ModuleInclude { source: Spanned::new(Expr::Computed, span(100)) };
    let errors = stmt.eval(Value::Int(1)).unwrap_err();
    assert_eq!(errors.len(), 1);
    assert_eq!(errors[0].kind, ErrorKind::InvalidImportSource { found: Kind::Int });
    assert_eq!(errors[0].message, "expected path or module, found integer");
    assert_eq!(errors[0].span, span(100));
    let errors = stmt.eval(Value::Func(Func::closure("f"))).unwrap_err();
    assert_eq!(errors[0].kind, ErrorKind::UnimportableCallable);
    let errors = stmt.source(Value::Type(Type::new("int", Scope::new()))).unwrap_err();
    assert_eq!(errors[0].kind, ErrorKind::InvalidImportSource { found: Kind::Type });
    assert_eq!(errors[0].message, "expected path or module, found type");
}

#[test]
fn expression_names() {
    assert_eq!(Expr::Ident(Ident("a".to_string())).name(), "identifier");
    assert_eq!(text("a").name(), "string");
    assert_eq!(Expr::FieldAccess(Ident("a".to_string())).name(), "field access");
    assert_eq!(Expr::Computed.name(), "expression");
}
