use vstd::prelude::*;

use crate::framework::{
    env_view, position_model, program_model, requested_line, strs, Language, TestFramework,
};
use crate::named_pattern::{compile, pattern_matches, regex_compiles};
use crate::{AnytestError, Context, Scope};

verus! {

/// Whether `fw` governs the file at `path`.
pub open spec fn suitable(fw: TestFramework, path: Seq<char>) -> bool {
    pattern_matches(fw.pattern@, path)
}

/// Whether `fws[i]` governs the file at `path` and none before it does.
pub open spec fn is_first_suitable(fws: Seq<TestFramework>, path: Seq<char>, i: int) -> bool {
    0 <= i < fws.len() && suitable(fws[i], path) && forall|j: int|
        0 <= j < i ==> !suitable(#[trigger] fws[j], path)
}

/// The position of the first framework of `fws` that governs `path`, if any does.
pub open spec fn first_suitable(fws: Seq<TestFramework>, path: Seq<char>) -> Option<int> {
    if exists|i: int| is_first_suitable(fws, path, i) {
        Some(choose|i: int| is_first_suitable(fws, path, i))
    } else {
        None
    }
}

/// A command to run, as values.
pub struct CommandModel {
    pub program: Seq<char>,
    pub args: Seq<Seq<char>>,
    pub cwd: Seq<char>,
    pub env: Seq<(Seq<char>, Seq<char>)>,
}

/// The command that runs the tests of `ctx` with `fw`.
pub open spec fn command_model(fw: TestFramework, ctx: Context) -> Result<
    CommandModel,
    AnytestError,
> {
    match program_model(fw.default_program@) {
        Err(e) => Err(e),
        Ok((program, base)) => match position_model(ctx) {
            Err(e) => Err(e),
            Ok(pos) => Ok(
                CommandModel {
                    program,
                    args: base + strs(fw.args@) + pos,
                    cwd: ctx.root@,
                    env: env_view(fw.language.env@) + env_view(fw.env@),
                },
            ),
        },
    }
}

/// The command that runs the tests of `ctx` with the first framework of `fws` that governs
/// its file.
pub open spec fn build_model(fws: Seq<TestFramework>, ctx: Context) -> Result<
    CommandModel,
    AnytestError,
> {
    if ctx.scope == Scope::Line && requested_line(ctx) is None {
        Err(AnytestError::MissingLineNumber)
    } else {
        match first_suitable(fws, ctx.relative_path@) {
            None => Err(AnytestError::NoFrameworkFound),
            Some(i) => command_model(fws[i], ctx),
        }
    }
}

/// A command to run: the program, its arguments, the directory to run it in and the
/// environment entries to set, later entries overriding earlier ones.
#[derive(Debug, PartialEq, Eq)]
pub struct CommandSpec {
    pub program: String,
    pub args: Vec<String>,
    pub cwd: String,
    pub env: Vec<(String, String)>,
}

impl CommandSpec {
    pub open spec fn view(&self) -> CommandModel {
        CommandModel {
            program: self.program@,
            args: strs(self.args@),
            cwd: self.cwd@,
            env: env_view(self.env@),
        }
    }
}

pub open spec fn command_result_view(r: Result<CommandSpec, AnytestError>) -> Result<
    CommandModel,
    AnytestError,
> {
    match r {
        Ok(c) => Ok(c.view()),
        Err(e) => Err(e),
    }
}

fn append_strs(out: &mut Vec<String>, v: &Vec<String>)
    ensures
        strs(final(out)@) == strs(old(out)@) + strs(v@),
{
    let ghost start = out@;
    let mut i: usize = 0;
    while i < v.len()
        invariant
            0 <= i <= v@.len(),
            strs(out@) == strs(start) + strs(v@.subrange(0, i as int)),
        decreases v@.len() - i,
    {
        let s = v[i].clone();
        let ghost before = out@;
        out.push(s);
        assert(strs(out@) =~= strs(before).push(v@[i as int]@));
        assert(strs(v@.subrange(0, i + 1)) =~= strs(v@.subrange(0, i as int)).push(v@[i as int]@));
        assert(strs(out@) =~= strs(start) + strs(v@.subrange(0, i + 1)));
        i = i + 1;
    }
    assert(v@.subrange(0, v@.len() as int) == v@);
}

impl TestFramework {
    /// The command that runs the tests of `context` with this framework.
    pub fn command(&self, context: &Context) -> (r: Result<CommandSpec, AnytestError>)
        ensures
            command_result_view(r) == command_model(*self, *context),
    {
        let (program, base) = match self.program() {
            Ok(p) => p,
            Err(e) => return Err(e),
        };
        let pos = match self.position_args(context) {
            Ok(v) => v,
            Err(e) => return Err(e),
        };
        let mut args = base;
        append_strs(&mut args, &self.args);
        append_strs(&mut args, &pos);
        let r = CommandSpec {
            program,
            args,
            cwd: context.root.clone(),
            env: self.merged_env(),
        };
        assert(r.view() == command_model(*self, *context).unwrap());
        Ok(r)
    }
}

/// The language of Rust sources; its test runs need no environment of their own.
pub fn rust_language() -> (r: Language)
    ensures
        r.name@ == "Rust"@,
        r.env@.len() == 0,
{
    proof {
        reveal_strlit("Rust");
    }
    Language { name: "Rust".to_owned(), env: Vec::new() }
}

/// Rust's built-in test harness, run through cargo.
pub fn cargotest() -> (r: TestFramework)
    ensures
        r.language.name@ == "Rust"@,
        r.name@ == "cargotest"@,
        r.pattern@ == "\\.rs$"@,
        r.default_program@ == "cargo test"@,
        r.language.env@.len() == 0,
        r.args@.len() == 0,
        r.env@.len() == 0,
        r.test_pattern@ == "^\\s*(?:pub\\s+)?(?:async\\s+)?fn\\s+(?P<test>\\w+)"@,
        r.test_capture@ == "test"@,
        r.namespace_pattern@ == "^\\s*(?:pub(?:\\([^)]*\\))?\\s+)?mod\\s+(?P<namespace>\\w+)"@,
        r.namespace_capture@ == "namespace"@,
{
    proof {
        reveal_strlit("cargotest");
        reveal_strlit("\\.rs$");
        reveal_strlit("cargo test");
        reveal_strlit("test");
        reveal_strlit("namespace");
        reveal_strlit("^\\s*(?:pub\\s+)?(?:async\\s+)?fn\\s+(?P<test>\\w+)");
        reveal_strlit("^\\s*(?:pub(?:\\([^)]*\\))?\\s+)?mod\\s+(?P<namespace>\\w+)");
    }
    TestFramework {
        language: rust_language(),
        name: "cargotest".to_owned(),
        pattern: "\\.rs$".to_owned(),
        default_program: "cargo test".to_owned(),
        args: Vec::new(),
        env: Vec::new(),
        test_pattern: "^\\s*(?:pub\\s+)?(?:async\\s+)?fn\\s+(?P<test>\\w+)".to_owned(),
        test_capture: "test".to_owned(),
        namespace_pattern: "^\\s*(?:pub(?:\\([^)]*\\))?\\s+)?mod\\s+(?P<namespace>\\w+)".to_owned(),
        namespace_capture: "namespace".to_owned(),
    }
}

/// The test frameworks that can run a project's tests, in order of priority.
pub struct Registry {
    frameworks: Vec<TestFramework>,
}

impl Registry {
    pub closed spec fn view(&self) -> Seq<TestFramework> {
        self.frameworks@
    }

    /// A registry of the frameworks this library knows.
    pub fn new() -> (r: Registry)
        ensures
            r@.len() == 1,
            r@[0].language.name@ == "Rust"@,
            r@[0].language.env@.len() == 0,
            r@[0].name@ == "cargotest"@,
            r@[0].pattern@ == "\\.rs$"@,
            r@[0].default_program@ == "cargo test"@,
            r@[0].args@.len() == 0,
            r@[0].env@.len() == 0,
            r@[0].test_pattern@ == "^\\s*(?:pub\\s+)?(?:async\\s+)?fn\\s+(?P<test>\\w+)"@,
            r@[0].test_capture@ == "test"@,
            r@[0].namespace_pattern@ == "^\\s*(?:pub(?:\\([^)]*\\))?\\s+)?mod\\s+(?P<namespace>\\w+)"@,
            r@[0].namespace_capture@ == "namespace"@,
    {
        let mut registry = Registry::empty();
        registry.add(cargotest());
        registry
    }

    /// A registry that holds no framework.
    pub fn empty() -> (r: Registry)
        ensures
            r@.len() == 0,
    {
        Registry { frameworks: Vec::new() }
    }

    /// Adds `framework` after all those already held, with the lowest priority.
    pub fn add(&mut self, framework: TestFramework)
        ensures
            final(self)@ == old(self)@.push(framework),
    {
        self.frameworks.push(framework);
    }

    pub fn frameworks(&self) -> (r: &Vec<TestFramework>)
        ensures
            r@ == self@,
    {
        &self.frameworks
    }

    /// The first framework, in order of registration, that governs the file of `context`.
    pub fn select_for(&self, context: &Context) -> (r: Result<&TestFramework, AnytestError>)
        ensures
            match r {
                Ok(f) => first_suitable(self@, context.relative_path@) matches Some(i) && *f
                    == self@[i],
                Err(e) => first_suitable(self@, context.relative_path@) is None && e
                    == AnytestError::NoFrameworkFound,
            },
            r is Err <==> forall|i: int|
                0 <= i < self@.len() ==> !suitable(#[trigger] self@[i], context.relative_path@),
    {
        let ghost path = context.relative_path@;
        let mut i: usize = 0;
        while i < self.frameworks.len()
            invariant
                path == context.relative_path@,
                0 <= i <= self@.len(),
                forall|j: int| 0 <= j < i ==> !suitable(#[trigger] self@[j], path),
            decreases self@.len() - i,
        {
            let found = self.frameworks[i].is_suitable_for(context);
            if found {
                proof {
                    assert(is_first_suitable(self@, path, i as int));
                    let k = choose|k: int| is_first_suitable(self@, path, k);
                    if k < i {
                    } else if k > i {
                        assert(!suitable(self@[i as int], path));
                    }
                }
                return Ok(&self.frameworks[i]);
            }
            i = i + 1;
        }
        Err(AnytestError::NoFrameworkFound)
    }

    /// The positions of the frameworks whose file pattern does not compile, in order; such a
    /// framework governs no file.
    pub fn invalid_patterns(&self) -> (r: Vec<usize>)
        ensures
            forall|k: int|
                0 <= k < r@.len() ==> r@[k] < self@.len() && !regex_compiles(
                    self@[r@[k] as int].pattern@,
                ),
            forall|k: int, l: int| 0 <= k < l < r@.len() ==> r@[k] < r@[l],
            forall|i: int|
                0 <= i < self@.len() && !regex_compiles(#[trigger] self@[i].pattern@)
                    ==> r@.contains(i as usize),
    {
        let mut out: Vec<usize> = Vec::new();
        let mut i: usize = 0;
        while i < self.frameworks.len()
            invariant
                0 <= i <= self@.len(),
                forall|k: int|
                    0 <= k < out@.len() ==> out@[k] < i && !regex_compiles(
                        self@[out@[k] as int].pattern@,
                    ),
                forall|k: int, l: int| 0 <= k < l < out@.len() ==> out@[k] < out@[l],
                forall|j: int|
                    0 <= j < i && !regex_compiles(#[trigger] self@[j].pattern@) ==> out@.contains(
                        j as usize,
                    ),
            decreases self@.len() - i,
        {
            let compiled = compile(self.frameworks[i].pattern.as_str());
            if compiled.is_err() {
                let ghost before = out@;
                out.push(i);
                assert(out@[out@.len() - 1] == i);
                assert forall|j: int|
                    0 <= j < i && !regex_compiles(#[trigger] self@[j].pattern@) implies out@.contains(
                    j as usize,
                ) by {
                    let k = choose|k: int| 0 <= k < before.len() && before[k] == j as usize;
                    assert(out@[k] == j as usize);
                }
            }
            i = i + 1;
        }
        out
    }

    /// The positions of all frameworks that govern the file of `context`, in order.
    pub fn matching(&self, context: &Context) -> (r: Vec<usize>)
        ensures
            forall|k: int|
                0 <= k < r@.len() ==> r@[k] < self@.len() && suitable(
                    self@[r@[k] as int],
                    context.relative_path@,
                ),
            forall|k: int, l: int| 0 <= k < l < r@.len() ==> r@[k] < r@[l],
            forall|i: int|
                0 <= i < self@.len() && suitable(#[trigger] self@[i], context.relative_path@)
                    ==> r@.contains(i as usize),
    {
        let ghost path = context.relative_path@;
        let mut out: Vec<usize> = Vec::new();
        let mut i: usize = 0;
        while i < self.frameworks.len()
            invariant
                path == context.relative_path@,
                0 <= i <= self@.len(),
                forall|k: int|
                    0 <= k < out@.len() ==> out@[k] < i && suitable(self@[out@[k] as int], path),
                forall|k: int, l: int| 0 <= k < l < out@.len() ==> out@[k] < out@[l],
                forall|j: int|
                    0 <= j < i && suitable(#[trigger] self@[j], path) ==> out@.contains(j as usize),
            decreases self@.len() - i,
        {
            let found = self.frameworks[i].is_suitable_for(context);
            if found {
                let ghost before = out@;
                out.push(i);
                assert(out@[out@.len() - 1] == i);
                assert forall|j: int| 0 <= j < i && suitable(#[trigger] self@[j], path) implies out@.contains(
                    j as usize,
                ) by {
                    let k = choose|k: int| 0 <= k < before.len() && before[k] == j as usize;
                    assert(out@[k] == j as usize);
                }
            }
            i = i + 1;
        }
        out
    }
}

/// The command that runs the tests of `context` with the first framework of `registry`
/// that governs its file.
pub fn build_command(registry: &Registry, context: &Context) -> (r: Result<
    CommandSpec,
    AnytestError,
>)
    ensures
        command_result_view(r) == build_model(registry@, *context),
        context.scope == Scope::Line && requested_line(*context) is None ==> r == Err::<
            CommandSpec,
            AnytestError,
        >(AnytestError::MissingLineNumber),
{
    if context.scope == Scope::Line {
        let has_line = match context.line {
            Some(l) => l >= 1,
            None => false,
        };
        if !has_line {
            return Err(AnytestError::MissingLineNumber);
        }
    }
    match registry.select_for(context) {
        Ok(fw) => fw.command(context),
        Err(e) => Err(e),
    }
}

} // verus!
