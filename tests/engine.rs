use anytest::framework::{Found, Language, Nearest, TestFramework};
use anytest::named_pattern::{NamedPattern, PatternError};
use anytest::registry::{build_command, cargotest, rust_language, CommandSpec, Registry};
use anytest::{AnytestError, Context, Scope};

fn s(x: &str) -> String {
    x.to_string()
}

fn context(rel: &str, line: Option<usize>, scope: Scope) -> Context {
    Context {
        root: s("/proj"),
        absolute_path: format!("/proj/{}", rel),
        relative_path: s(rel),
        line,
        scope,
    }
}

fn framework(name: &str, pattern: &str, program: &str) -> TestFramework {
    TestFramework {
        language: Language { name: s("Rust"), env: vec![(s("RUST_BACKTRACE"), s("1"))] },
        name: s(name),
        pattern: s(pattern),
        default_program: s(program),
        args: vec![],
        env: vec![],
        test_pattern: s(r"^\s*fn\s+(?P<test>\w+)"),
        test_capture: s("test"),
        namespace_pattern: s(r"^\s*mod\s+(?P<namespace>\w+)"),
        namespace_capture: s("namespace"),
    }
}

fn lines(text: &[&str]) -> Vec<String> {
    text.iter().map(|l| l.to_string()).collect()
}

fn sample_file() -> Vec<String> {
    lines(&[
        "use super::*;",
        "mod tests {",
        "    use super::*;",
        "",
        "    // helpers",
        "    #[test]",
        "    fn adds_two() {",
        "        assert_eq!(2 + 2, 4);",
        "        let x = 1;",
        "    }",
        "}",
    ])
}

#[test]
fn select_for_returns_first_suitable_framework() {
    let mut registry = Registry::empty();
    registry.add(framework("first", r"_test\.rs$", "cargo test"));
    registry.add(framework("second", r"\.rs$", "cargo nextest run"));
    registry.add(framework("third", r"_test\.rs$", "other"));
    let ctx = context("src/foo_test.rs", None, Scope::File);
    assert_eq!(registry.select_for(&ctx).unwrap().name, "first");
    let ctx = context("src/foo.rs", None, Scope::File);
    assert_eq!(registry.select_for(&ctx).unwrap().name, "second");
    assert_eq!(registry.matching(&context("a_test.rs", None, Scope::File)), vec![0, 1, 2]);
    assert_eq!(registry.matching(&context("a.rs", None, Scope::File)), vec![1]);
}

#[test]
fn select_for_without_match_is_no_framework_found() {
    let mut registry = Registry::empty();
    registry.add(framework("first", r"_test\.rs$", "cargo test"));
    let ctx = context("src/main.py", None, Scope::File);
    assert_eq!(registry.select_for(&ctx).err(), Some(AnytestError::NoFrameworkFound));
    assert_eq!(build_command(&registry, &ctx), Err(AnytestError::NoFrameworkFound));
    let empty = Registry::empty();
    assert_eq!(empty.select_for(&ctx).err(), Some(AnytestError::NoFrameworkFound));
}

#[test]
fn invalid_suitability_pattern_never_matches() {
    let mut registry = Registry::empty();
    registry.add(framework("broken", r"(unclosed", "cargo test"));
    registry.add(framework("good", r"\.rs$", "cargo test"));
    let ctx = context("src/lib.rs", None, Scope::File);
    assert!(!registry.frameworks()[0].is_suitable_for(&ctx));
    assert_eq!(registry.select_for(&ctx).unwrap().name, "good");
}

#[test]
fn default_registry_governs_rust_files() {
    let registry = Registry::new();
    assert_eq!(registry.frameworks().len(), 1);
    let fw = registry.select_for(&context("src/lib.rs", None, Scope::Suite)).unwrap();
    assert_eq!(fw.name, "cargotest");
    assert_eq!(fw.language_name(), "Rust");
    assert!(registry.select_for(&context("main.go", None, Scope::Suite)).is_err());
    assert_eq!(rust_language().name, "Rust");
    assert_eq!(cargotest().default_program, "cargo test");
}

#[test]
fn suite_position_args_are_empty() {
    let fw = framework("f", r"\.rs$", "cargo test");
    assert_eq!(fw.position_args(&context("src/a.rs", Some(12), Scope::Suite)), Ok(vec![]));
    assert_eq!(fw.position_args(&context("b.rs", None, Scope::Suite)), Ok(vec![]));
}

#[test]
fn file_position_args_are_relative_path() {
    let fw = framework("f", r"\.rs$", "cargo test");
    assert_eq!(
        fw.position_args(&context("src/a.rs", Some(3), Scope::File)),
        Ok(vec![s("src/a.rs")])
    );
}

#[test]
fn line_position_args_join_path_and_line() {
    let fw = framework("f", r"\.rs$", "cargo test");
    assert_eq!(
        fw.position_args(&context("src/a.rs", Some(42), Scope::Line)),
        Ok(vec![s("src/a.rs:42")])
    );
    assert_eq!(
        fw.position_args(&context("src/a.rs", Some(7), Scope::Line)),
        Ok(vec![s("src/a.rs:7")])
    );
    assert_eq!(
        fw.position_args(&context("src/a.rs", None, Scope::Line)),
        Err(AnytestError::MissingLineNumber)
    );
}

#[test]
fn nearest_finds_enclosing_test_and_namespace() {
    let fw = framework("f", r"\.rs$", "cargo test");
    let file = sample_file();
    let nearest = fw.find_nearest(&context("src/a.rs", Some(9), Scope::Line), &file).unwrap();
    assert_eq!(
        nearest,
        Nearest {
            test: Some(Found { name: s("adds_two"), line: 7 }),
            namespace: Some(Found { name: s("tests"), line: 2 }),
        }
    );
    let nearest = fw.find_nearest(&context("src/a.rs", Some(4), Scope::Line), &file).unwrap();
    assert_eq!(
        nearest,
        Nearest { test: None, namespace: Some(Found { name: s("tests"), line: 2 }) }
    );
}

#[test]
fn nearest_ignores_lines_below_request() {
    let fw = framework("f", r"\.rs$", "cargo test");
    let file = sample_file();
    let ctx = context("src/a.rs", Some(4), Scope::Line);
    let before = fw.find_nearest(&ctx, &file).unwrap();
    let mut longer = file.clone();
    longer.push(s("fn appended_test() {"));
    longer.push(s("mod later {"));
    let after = fw.find_nearest(&ctx, &longer).unwrap();
    assert_eq!(before, after);
    assert_eq!(after.test, None);
}

#[test]
fn nearest_beyond_end_of_file_starts_at_last_line() {
    let fw = framework("f", r"\.rs$", "cargo test");
    let file = sample_file();
    let nearest = fw.find_nearest(&context("a.rs", Some(100), Scope::Line), &file).unwrap();
    assert_eq!(nearest.test, Some(Found { name: s("adds_two"), line: 7 }));
    assert_eq!(nearest.namespace, Some(Found { name: s("tests"), line: 2 }));
}

#[test]
fn nearest_without_line_is_missing_line_number() {
    let fw = framework("f", r"\.rs$", "cargo test");
    assert_eq!(
        fw.find_nearest(&context("a.rs", None, Scope::Line), &sample_file()),
        Err(AnytestError::MissingLineNumber)
    );
}

#[test]
fn nearest_line_matching_both_counts_as_test() {
    let mut fw = framework("f", r"\.rs$", "cargo test");
    fw.namespace_pattern = s(r"^\s*(?:mod|fn)\s+(?P<namespace>\w+)");
    let file = lines(&["mod outer {", "fn both() {", "  body"]);
    let nearest = fw.find_nearest(&context("a.rs", Some(3), Scope::Line), &file).unwrap();
    assert_eq!(nearest.test, Some(Found { name: s("both"), line: 2 }));
    assert_eq!(nearest.namespace, Some(Found { name: s("outer"), line: 1 }));
}

#[test]
fn nearest_with_invalid_patterns_finds_nothing() {
    let mut fw = framework("f", r"\.rs$", "cargo test");
    fw.test_pattern = s("(");
    fw.namespace_pattern = s("[");
    let nearest = fw.find_nearest(&context("a.rs", Some(9), Scope::Line), &sample_file()).unwrap();
    assert_eq!(nearest, Nearest { test: None, namespace: None });
}

#[test]
fn program_splits_on_whitespace() {
    let fw = framework("f", r"\.rs$", "cargo test");
    assert_eq!(fw.program(), Ok((s("cargo"), vec![s("test")])));
    let fw = framework("f", r"\.rs$", "  cargo\tnextest   run ");
    assert_eq!(fw.program(), Ok((s("cargo"), vec![s("nextest"), s("run")])));
    assert_eq!(fw.build_program(), "  cargo\tnextest   run ");
}

#[test]
fn program_empty_or_blank_is_empty_program() {
    assert_eq!(framework("f", "x", "").program(), Err(AnytestError::EmptyProgram));
    assert_eq!(framework("f", "x", "   \t\n").program(), Err(AnytestError::EmptyProgram));
}

#[test]
fn framework_env_overrides_language_env() {
    let mut fw = framework("f", r"\.rs$", "cargo test");
    fw.language.env = vec![(s("A"), s("lang")), (s("B"), s("only-lang"))];
    fw.env = vec![(s("A"), s("framework")), (s("C"), s("only-framework"))];
    let env = fw.merged_env();
    let get = |k: &str| env.iter().rev().find(|e| e.0 == k).map(|e| e.1.clone());
    assert_eq!(get("A"), Some(s("framework")));
    assert_eq!(get("B"), Some(s("only-lang")));
    assert_eq!(get("C"), Some(s("only-framework")));
    assert_eq!(get("D"), None);
}

#[test]
fn build_command_is_idempotent() {
    let mut registry = Registry::empty();
    registry.add(framework("f", r"\.rs$", "cargo test"));
    let ctx = context("src/a.rs", Some(5), Scope::Line);
    let first = build_command(&registry, &ctx);
    let second = build_command(&registry, &ctx);
    assert_eq!(first, second);
    assert!(first.is_ok());
}

#[test]
fn build_command_end_to_end_suite() {
    let mut fw = framework("f", r"_test\.rs$", "cargo test");
    fw.language.env = vec![];
    let mut registry = Registry::empty();
    registry.add(fw);
    let ctx = context("src/foo_test.rs", None, Scope::Suite);
    assert_eq!(
        build_command(&registry, &ctx),
        Ok(CommandSpec { program: s("cargo"), args: vec![s("test")], cwd: s("/proj"), env: vec![] })
    );
}

#[test]
fn build_command_combines_all_argument_sources() {
    let mut fw = framework("f", r"\.rs$", "cargo test --quiet");
    fw.args = vec![s("--no-fail-fast")];
    fw.env = vec![(s("X"), s("1"))];
    let mut registry = Registry::empty();
    registry.add(fw);
    let cmd = build_command(&registry, &context("src/a.rs", Some(8), Scope::Line)).unwrap();
    assert_eq!(cmd.program, "cargo");
    assert_eq!(cmd.args, vec![s("test"), s("--quiet"), s("--no-fail-fast"), s("src/a.rs:8")]);
    assert_eq!(cmd.env, vec![(s("RUST_BACKTRACE"), s("1")), (s("X"), s("1"))]);
    let err = build_command(&registry, &context("src/a.rs", None, Scope::Line));
    assert_eq!(err, Err(AnytestError::MissingLineNumber));
    let mut blank = Registry::empty();
    blank.add(framework("f", r"\.rs$", " "));
    assert_eq!(
        build_command(&blank, &context("a.rs", None, Scope::File)),
        Err(AnytestError::EmptyProgram)
    );
}

#[test]
fn named_pattern_matches_and_captures() {
    let p = NamedPattern::new(r"fn\s+(?P<name>\w+)", "name").unwrap();
    assert!(p.matches("  fn hello()"));
    assert!(!p.matches("let x = 1;"));
    assert_eq!(p.capture("  fn hello()"), Some(s("hello")));
    assert_eq!(p.capture("nothing"), None);
    assert_eq!(NamedPattern::new("(", "name").err(), Some(PatternError::InvalidRegex));
}

#[test]
fn named_pattern_without_declared_group_is_refused() {
    assert_eq!(
        NamedPattern::new(r"fn\s+(?P<name>\w+)", "test").err(),
        Some(PatternError::MissingCaptureGroup)
    );
    assert_eq!(NamedPattern::new(r"fn\s+\w+", "test").err(), Some(PatternError::MissingCaptureGroup));
}

#[test]
fn nearest_with_wrong_capture_name_finds_no_test() {
    let mut fw = framework("f", r"\.rs$", "cargo test");
    fw.test_capture = s("name");
    assert!(fw.test_patterns().is_err());
    assert!(fw.namespace_patterns().is_ok());
    let nearest = fw.find_nearest(&context("a.rs", Some(9), Scope::Line), &sample_file()).unwrap();
    assert_eq!(nearest.test, None);
    assert_eq!(nearest.namespace, Some(Found { name: s("tests"), line: 2 }));
}

#[test]
fn line_zero_is_missing_line_number() {
    let fw = framework("f", r"\.rs$", "cargo test");
    assert_eq!(
        fw.position_args(&context("src/a.rs", Some(0), Scope::Line)),
        Err(AnytestError::MissingLineNumber)
    );
    assert_eq!(
        fw.find_nearest(&context("src/a.rs", Some(0), Scope::Line), &sample_file()),
        Err(AnytestError::MissingLineNumber)
    );
}

#[test]
fn line_scope_without_line_fails_before_selection() {
    let empty = Registry::empty();
    assert_eq!(
        build_command(&empty, &context("main.py", None, Scope::Line)),
        Err(AnytestError::MissingLineNumber)
    );
    let mut blank = Registry::empty();
    blank.add(framework("f", r"\.rs$", ""));
    assert_eq!(
        build_command(&blank, &context("a.rs", Some(0), Scope::Line)),
        Err(AnytestError::MissingLineNumber)
    );
}

#[test]
fn invalid_patterns_lists_frameworks_that_cannot_compile() {
    let mut registry = Registry::empty();
    registry.add(framework("a", r"(unclosed", "cargo test"));
    registry.add(framework("b", r"\.rs$", "cargo test"));
    registry.add(framework("c", r"[", "cargo test"));
    assert_eq!(registry.invalid_patterns(), vec![0, 2]);
    assert_eq!(Registry::new().invalid_patterns(), Vec::<usize>::new());
}

#[test]
fn default_registry_descriptor_is_fully_fixed() {
    let a = Registry::new();
    let b = Registry::new();
    let (x, y) = (&a.frameworks()[0], &b.frameworks()[0]);
    assert_eq!(x.test_pattern, y.test_pattern);
    assert_eq!(x.namespace_pattern, y.namespace_pattern);
    assert_eq!(x.test_capture, "test");
    assert_eq!(x.namespace_capture, "namespace");
    let file = lines(&["mod tests {", "    #[test]", "    fn works() {", "    }"]);
    let nearest = x.find_nearest(&context("src/a.rs", Some(4), Scope::Line), &file).unwrap();
    assert_eq!(nearest.test, Some(Found { name: s("works"), line: 3 }));
    assert_eq!(nearest.namespace, Some(Found { name: s("tests"), line: 1 }));
}
