use import_resolver::cache::{Cache, Claim};
use import_resolver::desc::{DescItem, DescNode};
use import_resolver::diag::{ErrorKind, SourceDiagnostic, Trace, Tracepoint};
use import_resolver::engine::{
    finish_file, import, import_file, import_package, resolve_package, Engine, FileStep,
    ImportStep,
};
use import_resolver::file::{FileError, FileErrorKind, FileIdentity};
use import_resolver::package::{PackageManifest, PackageSpec, PackageVersion, VersionBound};
use import_resolver::route::Route;
use import_resolver::scope::Scope;
use import_resolver::span::Span;
use import_resolver::value::{Binding, Content, Module, Value};
use std::sync::Arc;

fn span(n: u32) -> Span {
    Span::new(1, n, n + 1)
}

fn file(path: &str) -> FileIdentity {
    FileIdentity::new(None, path)
}

fn module(n: i64) -> Module {
    let mut scope = Scope::new();
    scope.bind("x".to_string(), Binding::new(Value::Int(n), span(0)));
    Module::anonymous(scope, Content::new("body"))
}

fn example() -> PackageSpec {
    PackageSpec {
        namespace: "preview".to_string(),
        name: "example".to_string(),
        version: PackageVersion::new(0, 1, 0),
    }
}

fn manifest(name: &str, version: &str, entrypoint: &str) -> String {
    format!(
        "[package]\nname = \"{}\"\nversion = \"{}\"\nentrypoint = \"{}\"\n",
        name, version, entrypoint
    )
}

#[test]
fn virtual_paths_are_normalized() {
    assert_eq!(file("main.typ").path, "/main.typ");
    assert_eq!(file("/main.typ").path, "/main.typ");
    assert_eq!(file("a/./b/../c.typ").path, "/a/c.typ");
    assert_eq!(FileIdentity::manifest(example()).path, "/typst.toml");
    assert_eq!(FileIdentity::manifest(example()).package, Some(example()));
}

#[test]
fn paths_are_joined_relative_to_the_importing_file() {
    let base = file("/src/main.typ");
    assert_eq!(base.join("lib/util.typ").path, "/src/lib/util.typ");
    assert_eq!(base.join("../other.typ").path, "/other.typ");
    assert_eq!(base.join("/abs.typ").path, "/abs.typ");
    assert_eq!(base.join("util.typ").package, None);
    let inside = FileIdentity::new(Some(example()), "/src/lib.typ");
    assert_eq!(inside.join("util.typ").package, Some(example()));
    assert_eq!(inside.join("util.typ").path, "/src/util.typ");
}

#[test]
fn file_identities_are_compared_by_package_and_path() {
    assert!(file("/a.typ").same(&file("a.typ")));
    assert!(!file("/a.typ").same(&file("/b.typ")));
    assert!(!file("/a.typ").same(&FileIdentity::new(Some(example()), "/a.typ")));
    let mut other = example();
    other.version = PackageVersion::new(0, 2, 0);
    assert!(!FileIdentity::new(Some(other), "/a.typ").same(&FileIdentity::new(Some(example()), "/a.typ")));
}

#[test]
fn package_specifications_are_parsed() {
    assert_eq!(PackageSpec::parse("@preview/example:0.1.0"), Ok(example()));
    assert_eq!(
        PackageSpec::parse("@local/my-pkg:12.0.345"),
        Ok(PackageSpec {
            namespace: "local".to_string(),
            name: "my-pkg".to_string(),
            version: PackageVersion::new(12, 0, 345),
        })
    );
}

#[test]
fn package_specifications_are_rejected_with_a_message() {
    assert_eq!(
        PackageSpec::parse("preview/example:0.1.0"),
        Err("package specification must start with '@'".to_string())
    );
    assert_eq!(
        PackageSpec::parse("@/example:0.1.0"),
        Err("package specification is missing namespace".to_string())
    );
    assert_eq!(
        PackageSpec::parse("@preview"),
        Err("package specification is missing name".to_string())
    );
    assert_eq!(
        PackageSpec::parse("@preview/example"),
        Err("package specification is missing version".to_string())
    );
    assert_eq!(
        PackageSpec::parse("@preview/example:0.1"),
        Err("version number is missing patch version".to_string())
    );
    assert_eq!(
        PackageSpec::parse("@preview/1x:0.1.0"),
        Err("`1x` is not a valid package name".to_string())
    );
}

#[test]
fn import_of_a_package_asks_for_its_manifest() {
    let step = import("@preview/example:0.1.0", span(5), Some(&file("/main.typ")));
    assert_eq!(
        step,
        ImportStep::Package { spec: example(), manifest: FileIdentity::manifest(example()) }
    );
}

#[test]
fn import_of_a_malformed_package_specification_fails() {
    let step = import("@preview/example", span(5), Some(&file("/main.typ")));
    match step {
        ImportStep::Failed(errors) => {
            assert_eq!(errors.len(), 1);
            assert_eq!(errors[0].kind, ErrorKind::InvalidPackageSpec);
            assert_eq!(errors[0].span, span(5));
            assert_eq!(errors[0].message, "package specification is missing version");
        }
        other => panic!("unexpected step {:?}", other),
    }
}

#[test]
fn import_of_a_path_asks_for_the_file_next_to_the_importer() {
    let step = import("lib/util.typ", span(5), Some(&file("/src/main.typ")));
    assert_eq!(step, ImportStep::File(file("/src/lib/util.typ")));
    let inside = FileIdentity::new(Some(example()), "/lib.typ");
    let step = import("util.typ", span(5), Some(&inside));
    assert_eq!(step, ImportStep::File(FileIdentity::new(Some(example()), "/util.typ")));
}

#[test]
fn import_of_a_path_from_nowhere_fails() {
    match import("util.typ", span(5), None) {
        ImportStep::Failed(errors) => {
            assert_eq!(errors.len(), 1);
            assert_eq!(errors[0].kind, ErrorKind::FileLoad);
            assert_eq!(errors[0].span, span(5));
            assert_eq!(errors[0].message, "cannot access file system from here");
        }
        other => panic!("unexpected step {:?}", other),
    }
}

#[test]
fn manifests_are_parsed() {
    let text = "[package]\nname = \"example\"\nversion = \"0.1.0\"\nentrypoint = \"src/lib.typ\"\ncompiler = \"0.12\"\nauthors = [\"someone\"]\n\n[tool.x]\nkey = 1\n";
    assert_eq!(
        PackageManifest::parse(text),
        Ok(PackageManifest {
            name: "example".to_string(),
            version: PackageVersion::new(0, 1, 0),
            entrypoint: "src/lib.typ".to_string(),
            compiler: Some(VersionBound::new(0, Some(12), None)),
        })
    );
    assert!(PackageManifest::parse("[package]\nname = \"example\"\n").is_err());
    assert!(PackageManifest::parse("not toml at all [").is_err());
    assert!(PackageManifest::parse("").is_err());
}

#[test]
fn manifests_are_validated_against_the_specification() {
    let parsed = PackageManifest::parse(&manifest("example", "0.1.0", "lib.typ")).unwrap();
    assert_eq!(parsed.validate(&example()), Ok(()));
    let parsed = PackageManifest::parse(&manifest("other", "0.1.0", "lib.typ")).unwrap();
    assert_eq!(
        parsed.validate(&example()),
        Err("package manifest contains mismatched name `other`".to_string())
    );
    let parsed = PackageManifest::parse(&manifest("example", "0.2.0", "lib.typ")).unwrap();
    assert_eq!(
        parsed.validate(&example()),
        Err("package manifest contains mismatched version 0.2.0".to_string())
    );
    let mut parsed = PackageManifest::parse(&manifest("example", "0.1.0", "lib.typ")).unwrap();
    parsed.compiler = Some(VersionBound::new(0, Some(1), None));
    assert_eq!(parsed.validate(&example()), Ok(()));
    parsed.compiler = Some(VersionBound::new(999, None, None));
    assert!(parsed.validate(&example()).is_err());
}

#[test]
fn package_with_a_matching_manifest_resolves_to_its_entrypoint() {
    let entry = resolve_package(&example(), Ok(manifest("example", "0.1.0", "src/lib.typ")), span(5));
    assert_eq!(
        entry,
        Ok(("example".to_string(), FileIdentity::new(Some(example()), "/src/lib.typ")))
    );
}

#[test]
fn manifest_with_another_name_is_rejected_before_the_entrypoint_is_known() {
    let entry = resolve_package(&example(), Ok(manifest("other", "0.1.0", "src/lib.typ")), span(5));
    let errors = entry.unwrap_err();
    assert_eq!(errors.len(), 1);
    assert_eq!(errors[0].kind, ErrorKind::ManifestValidation);
    assert_eq!(errors[0].span, span(5));
    assert_eq!(errors[0].message, "package manifest contains mismatched name `other`");
}

#[test]
fn manifest_with_another_version_is_rejected() {
    let entry = resolve_package(&example(), Ok(manifest("example", "1.0.0", "src/lib.typ")), span(5));
    let errors = entry.unwrap_err();
    assert_eq!(errors.len(), 1);
    assert_eq!(errors[0].kind, ErrorKind::ManifestValidation);
    assert_eq!(errors[0].message, "package manifest contains mismatched version 1.0.0");
}

#[test]
fn malformed_manifest_is_reported_with_the_message_of_the_parser() {
    let entry = resolve_package(&example(), Ok("[package]\nname = 3\n".to_string()), span(5));
    let errors = entry.unwrap_err();
    assert_eq!(errors.len(), 1);
    assert_eq!(errors[0].kind, ErrorKind::MalformedManifest);
    assert_eq!(errors[0].span, span(5));
    assert!(errors[0].message.starts_with("package manifest is malformed ("));
    assert!(errors[0].message.ends_with(")"));
    assert!(errors[0].message.len() > "package manifest is malformed ()".len());
}

#[test]
fn manifest_that_fails_to_load_is_a_file_error() {
    let failure = FileError { kind: FileErrorKind::NotFound, message: "file not found (searched at /typst.toml)".to_string() };
    let errors = resolve_package(&example(), Err(failure), span(5)).unwrap_err();
    assert_eq!(errors.len(), 1);
    assert_eq!(errors[0].kind, ErrorKind::FileLoad);
    assert_eq!(errors[0].span, span(5));
    assert_eq!(errors[0].message, "file not found (searched at /typst.toml)");
    assert!(errors[0].hints.is_empty());
}

#[test]
fn file_that_fails_to_load_fails_the_import() {
    let mut engine = Engine::new();
    let failure = FileError { kind: FileErrorKind::AccessDenied, message: "failed to load file (access denied)".to_string() };
    let step = import_file(&mut engine, &file("/a.typ"), Err(failure), span(5));
    match step {
        FileStep::Done(Err(errors)) => {
            assert_eq!(errors.len(), 1);
            assert_eq!(errors[0].kind, ErrorKind::FileLoad);
            assert_eq!(errors[0].span, span(5));
            assert_eq!(errors[0].message, "failed to load file (access denied)");
            assert_eq!(
                errors[0].hints,
                vec![
                    "cannot read file outside of project root".to_string(),
                    "you can adjust the project root with the --root argument".to_string(),
                ]
            );
            assert!(errors[0].trace.is_empty());
        }
        other => panic!("unexpected step {:?}", other),
    }
    assert_eq!(engine.route.len(), 0);
    assert_eq!(engine.cache.len(), 0);
}

#[test]
fn file_that_imports_itself_is_a_cyclic_import() {
    let mut engine = Engine::new();
    assert_eq!(import_file(&mut engine, &file("/a.typ"), Ok(1), span(10)), FileStep::Evaluate);
    let step = import_file(&mut engine, &file("/a.typ"), Ok(1), span(20));
    match step {
        FileStep::Done(Err(errors)) => {
            assert_eq!(errors.len(), 1);
            assert_eq!(errors[0].kind, ErrorKind::CyclicImport);
            assert_eq!(errors[0].span, span(20));
            assert_eq!(errors[0].message, "cyclic import");
        }
        other => panic!("unexpected step {:?}", other),
    }
    assert_eq!(engine.route.len(), 1);
}

#[test]
fn cycle_through_other_files_is_detected_at_the_closing_import() {
    let mut engine = Engine::new();
    assert_eq!(import_file(&mut engine, &file("/a.typ"), Ok(1), span(10)), FileStep::Evaluate);
    assert_eq!(import_file(&mut engine, &file("/b.typ"), Ok(2), span(20)), FileStep::Evaluate);
    assert_eq!(import_file(&mut engine, &file("/c.typ"), Ok(3), span(30)), FileStep::Evaluate);
    assert_eq!(engine.route.len(), 3);
    // Even under another fingerprint the file is on the route.
    let step = import_file(&mut engine, &file("a.typ"), Ok(99), span(40));
    match step {
        FileStep::Done(Err(errors)) => {
            assert_eq!(errors.len(), 1);
            assert_eq!(errors[0].kind, ErrorKind::CyclicImport);
            assert_eq!(errors[0].span, span(40));
        }
        other => panic!("unexpected step {:?}", other),
    }
    assert_eq!(engine.route.len(), 3);
    assert_eq!(engine.cache.len(), 3);
}

#[test]
fn second_import_of_a_file_replays_the_cached_module() {
    let mut engine = Engine::new();
    let id = file("/lib.typ");
    assert_eq!(import_file(&mut engine, &id, Ok(7), span(10)), FileStep::Evaluate);
    assert!(engine.route.contains(&id));
    let first = finish_file(&mut engine, id.clone(), 7, Ok(module(1)), span(10));
    assert_eq!(first, Ok(module(1)));
    assert_eq!(engine.route.len(), 0);
    let second = import_file(&mut engine, &id, Ok(7), span(20));
    assert_eq!(second, FileStep::Done(Ok(module(1))));
    assert_eq!(engine.route.len(), 0);
    assert_eq!(engine.cache.len(), 1);
    assert!(engine.sink.warnings().is_empty());
}

#[test]
fn changed_fingerprint_evaluates_the_file_again() {
    let mut engine = Engine::new();
    let id = file("/lib.typ");
    assert_eq!(import_file(&mut engine, &id, Ok(7), span(10)), FileStep::Evaluate);
    let _ = finish_file(&mut engine, id.clone(), 7, Ok(module(1)), span(10));
    assert_eq!(import_file(&mut engine, &id, Ok(8), span(20)), FileStep::Evaluate);
    let _ = finish_file(&mut engine, id.clone(), 8, Ok(module(2)), span(20));
    assert_eq!(import_file(&mut engine, &id, Ok(7), span(30)), FileStep::Done(Ok(module(1))));
    assert_eq!(import_file(&mut engine, &id, Ok(8), span(30)), FileStep::Done(Ok(module(2))));
    assert_eq!(engine.cache.len(), 2);
}

#[test]
fn failed_evaluation_is_replayed_with_a_trace_of_each_import() {
    let mut engine = Engine::new();
    let id = file("/bad.typ");
    let inner = SourceDiagnostic::error(ErrorKind::UnresolvedImport, Span::new(2, 4, 9), "unresolved import".to_string());
    assert_eq!(import_file(&mut engine, &id, Ok(7), span(10)), FileStep::Evaluate);
    let first = finish_file(&mut engine, id.clone(), 7, Err(vec![inner]), span(10)).unwrap_err();
    assert_eq!(first.len(), 1);
    assert_eq!(first[0].span, Span::new(2, 4, 9));
    assert_eq!(first[0].trace, vec![Trace { point: Tracepoint::Import, span: span(10) }]);
    match import_file(&mut engine, &id, Ok(7), span(20)) {
        FileStep::Done(Err(errors)) => {
            assert_eq!(errors.len(), 1);
            assert_eq!(errors[0].kind, ErrorKind::UnresolvedImport);
            assert_eq!(errors[0].trace, vec![Trace { point: Tracepoint::Import, span: span(20) }]);
        }
        other => panic!("unexpected step {:?}", other),
    }
}

#[test]
fn trace_skips_imports_that_surround_the_error_or_are_detached() {
    let error = SourceDiagnostic::error(ErrorKind::CyclicImport, Span::new(1, 4, 6), "cyclic import".to_string());
    let same = error.clone().traced(Span::new(1, 0, 10));
    assert!(same.trace.is_empty());
    let detached = error.clone().traced(Span::detached());
    assert!(detached.trace.is_empty());
    let other_file = error.clone().traced(Span::new(2, 0, 10));
    assert_eq!(other_file.trace, vec![Trace { point: Tracepoint::Import, span: Span::new(2, 0, 10) }]);
    let twice = other_file.traced(Span::new(3, 1, 2));
    assert_eq!(
        twice.trace,
        vec![
            Trace { point: Tracepoint::Import, span: Span::new(2, 0, 10) },
            Trace { point: Tracepoint::Import, span: Span::new(3, 1, 2) },
        ]
    );
    let narrow = error.traced(Span::new(1, 5, 6));
    assert_eq!(narrow.trace.len(), 1);
}

#[test]
fn evaluation_in_flight_elsewhere_makes_the_import_wait() {
    let mut engine = Engine::new();
    let id = file("/lib.typ");
    assert_eq!(engine.cache.claim(&id, 7), Claim::Start);
    assert_eq!(engine.cache.claim(&id, 7), Claim::Busy);
    assert_eq!(import_file(&mut engine, &id, Ok(7), span(10)), FileStep::Wait);
    assert_eq!(engine.route.len(), 0);
    engine.cache.complete(id.clone(), 7, Ok(module(3)));
    assert_eq!(engine.cache.claim(&id, 7), Claim::Hit(Ok(module(3))));
    assert_eq!(import_file(&mut engine, &id, Ok(7), span(10)), FileStep::Done(Ok(module(3))));
}

#[test]
fn cache_keeps_keys_apart() {
    let mut cache = Cache::new();
    assert_eq!(cache.claim(&file("/a.typ"), 1), Claim::Start);
    assert_eq!(cache.claim(&file("/a.typ"), 2), Claim::Start);
    assert_eq!(cache.claim(&file("/b.typ"), 1), Claim::Start);
    cache.complete(file("/a.typ"), 2, Ok(module(2)));
    assert_eq!(cache.claim(&file("/a.typ"), 1), Claim::Busy);
    assert_eq!(cache.claim(&file("/a.typ"), 2), Claim::Hit(Ok(module(2))));
    assert_eq!(cache.claim(&file("/b.typ"), 1), Claim::Busy);
    assert_eq!(cache.len(), 3);
}

#[test]
fn route_enters_and_leaves_in_order() {
    let mut route = Route::root();
    assert!(route.leave().is_none());
    assert!(route.enter(file("/a.typ")));
    assert!(route.enter(file("/b.typ")));
    assert!(!route.enter(file("/a.typ")));
    assert_eq!(route.len(), 2);
    assert!(route.contains(&file("/b.typ")));
    assert_eq!(route.leave(), Some(file("/b.typ")));
    assert!(!route.contains(&file("/b.typ")));
    assert_eq!(route.leave(), Some(file("/a.typ")));
    assert_eq!(route.len(), 0);
}

#[test]
fn package_import_attaches_the_name_of_the_manifest() {
    let named = import_package("example", Ok(module(1))).unwrap();
    assert_eq!(named.name, Some("example".to_string()));
    assert_eq!(named.scope().len(), 1);
    let errors = vec![SourceDiagnostic::error(ErrorKind::CyclicImport, span(1), "cyclic import".to_string())];
    let failed = import_package("example", Err(errors.clone()));
    assert_eq!(failed, Err(errors));
}

#[test]
fn description_list_fields() {
    let item = DescItem { term: Content::new("Ligature"), description: Content::new("A merged glyph.") };
    let encoded = Value::Array(Arc::new(vec![
        Value::Content(Content::new("Ligature")),
        Value::Content(Content::new("A merged glyph.")),
    ]));
    assert_eq!(item.encode(), encoded);
    let node = DescNode::construct(None, vec![item.clone(), item]);
    assert!(node.tight);
    assert_eq!(node.field("tight"), Some(Value::Bool(true)));
    assert_eq!(
        node.field("items"),
        Some(Value::Array(Arc::new(vec![encoded.clone(), encoded])))
    );
    assert_eq!(node.field("other"), None);
    let wide = DescNode::construct(Some(false), vec![]);
    assert_eq!(wide.field("tight"), Some(Value::Bool(false)));
    assert_eq!(wide.field("items"), Some(Value::Array(Arc::new(vec![]))));
}
