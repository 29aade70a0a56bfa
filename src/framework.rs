use vstd::prelude::*;
use vstd::string::StringExecFns;

use crate::named_pattern::{
    capture_of, compile, is_match, pattern_matches, pattern_usable, regex_named_capture,
    NamedPattern,
    PatternError,
};
use crate::{AnytestError, Context, Scope};

verus! {

/// The texts held by a sequence of strings.
pub open spec fn strs(v: Seq<String>) -> Seq<Seq<char>> {
    v.map_values(|s: String| s@)
}

/// The keys and values held by a list of environment entries.
pub open spec fn env_view(v: Seq<(String, String)>) -> Seq<(Seq<char>, Seq<char>)> {
    v.map_values(|e: (String, String)| (e.0@, e.1@))
}

/// The value of `key` in a list of environment entries: a later entry overrides an earlier one.
pub open spec fn env_get(e: Seq<(Seq<char>, Seq<char>)>, key: Seq<char>) -> Option<Seq<char>>
    decreases e.len(),
{
    if e.len() == 0 {
        None
    } else if e.last().0 == key {
        Some(e.last().1)
    } else {
        env_get(e.drop_last(), key)
    }
}

/// Unicode's White_Space property.
pub open spec fn is_white_space(c: char) -> bool {
    let u = c as u32;
    (0x9 <= u && u <= 0xd) || u == 0x20 || u == 0x85 || u == 0xa0 || u == 0x1680 || (0x2000 <= u
        && u <= 0x200a) || u == 0x2028 || u == 0x2029 || u == 0x202f || u == 0x205f || u == 0x3000
}

/// The words of `s` when `cur` holds the characters of an unfinished word before it.
pub open spec fn words_after(s: Seq<char>, cur: Seq<char>) -> Seq<Seq<char>>
    decreases s.len(),
{
    let done: Seq<Seq<char>> = if cur.len() == 0 {
        seq![]
    } else {
        seq![cur]
    };
    if s.len() == 0 {
        done
    } else if is_white_space(s[0]) {
        done + words_after(s.skip(1), seq![])
    } else {
        words_after(s.skip(1), cur.push(s[0]))
    }
}

/// The words of a text: its maximal runs of characters that are not white space, in order.
pub open spec fn whitespace_words(s: Seq<char>) -> Seq<Seq<char>> {
    words_after(s, seq![])
}

/// A text made of white space alone has no words.
pub proof fn lemma_blank_has_no_words(s: Seq<char>)
    requires
        forall|i: int| 0 <= i < s.len() ==> is_white_space(#[trigger] s[i]),
    ensures
        whitespace_words(s).len() == 0,
    decreases s.len(),
{
    if s.len() > 0 {
        assert forall|i: int| 0 <= i < s.skip(1).len() implies is_white_space(
            #[trigger] s.skip(1)[i],
        ) by {
            assert(s.skip(1)[i] == s[i + 1]);
        }
        lemma_blank_has_no_words(s.skip(1));
        assert(is_white_space(s[0]));
        assert(whitespace_words(s) =~= seq![] + whitespace_words(s.skip(1)));
    }
}

/// Relies on str::split_whitespace: the substrings between runs of Unicode white space, in
/// order, empty ones left out.
#[verifier::external_body]
fn split_words(s: &str) -> (r: Vec<String>)
    ensures
        strs(r@) == whitespace_words(s@),
{
    s.split_whitespace().map(|w| w.to_string()).collect()
}

pub open spec fn digit_char(d: int) -> char {
    seq!['0', '1', '2', '3', '4', '5', '6', '7', '8', '9'][d]
}

/// The decimal digits of `n`, without leading zeros.
pub open spec fn decimal(n: nat) -> Seq<char>
    decreases n,
{
    if n < 10 {
        seq![digit_char(n as int)]
    } else {
        decimal(n / 10) + seq![digit_char((n % 10) as int)]
    }
}

/// `path:line`, the position of a line in a file.
pub open spec fn path_with_line_text(path: Seq<char>, line: nat) -> Seq<char> {
    path + seq![':'] + decimal(line)
}

/// Relies on `usize`'s `Display`, through `to_string`: its decimal digits.
#[verifier::external_body]
fn decimal_text(n: usize) -> (r: String)
    ensures
        r@ == decimal(n as nat),
{
    n.to_string()
}

fn path_with_line(path: &str, line: usize) -> (r: String)
    ensures
        r@ == path_with_line_text(path@, line as nat),
{
    let digits = decimal_text(line);
    let mut text = path.to_owned();
    proof {
        reveal_strlit(":");
    }
    text.append(":");
    text.append(digits.as_str());
    text
}

/// The line that a context asks for, if it holds a line number (numbered from 1).
pub open spec fn requested_line(ctx: Context) -> Option<nat> {
    match ctx.line {
        Some(l) => if l >= 1 {
            Some(l as nat)
        } else {
            None
        },
        None => None,
    }
}

/// The program and the leading arguments that a program string stands for.
pub open spec fn program_model(program: Seq<char>) -> Result<
    (Seq<char>, Seq<Seq<char>>),
    AnytestError,
> {
    let w = whitespace_words(program);
    if w.len() == 0 {
        Err(AnytestError::EmptyProgram)
    } else {
        Ok((w[0], w.skip(1)))
    }
}

/// The arguments that narrow a run to the scope of a context.
pub open spec fn position_model(ctx: Context) -> Result<Seq<Seq<char>>, AnytestError> {
    match ctx.scope {
        Scope::Suite => Ok(seq![]),
        Scope::File => Ok(seq![ctx.relative_path@]),
        Scope::Line => match requested_line(ctx) {
            Some(l) => Ok(seq![path_with_line_text(ctx.relative_path@, l)]),
            None => Err(AnytestError::MissingLineNumber),
        },
    }
}

/// A programming language: its name and the environment that its test runs need.
pub struct Language {
    pub name: String,
    pub env: Vec<(String, String)>,
}

fn copy_env(env: &Vec<(String, String)>) -> (r: Vec<(String, String)>)
    ensures
        env_view(r@) == env_view(env@),
{
    let mut out: Vec<(String, String)> = Vec::new();
    append_env(&mut out, env);
    out
}

fn append_env(out: &mut Vec<(String, String)>, env: &Vec<(String, String)>)
    ensures
        env_view(final(out)@) == env_view(old(out)@) + env_view(env@),
{
    let ghost start = out@;
    let mut i: usize = 0;
    while i < env.len()
        invariant
            0 <= i <= env@.len(),
            env_view(out@) == env_view(start) + env_view(env@.subrange(0, i as int)),
        decreases env@.len() - i,
    {
        let key = env[i].0.clone();
        let value = env[i].1.clone();
        let ghost before = out@;
        out.push((key, value));
        assert(env_view(out@) =~= env_view(before).push((env@[i as int].0@, env@[i as int].1@)));
        assert(env_view(env@.subrange(0, i + 1)) =~= env_view(env@.subrange(0, i as int)).push(
            (env@[i as int].0@, env@[i as int].1@),
        ));
        assert(env_view(out@) =~= env_view(start) + env_view(env@.subrange(0, i + 1)));
        i = i + 1;
    }
    assert(env@.subrange(0, env@.len() as int) == env@);
}

/// What a line, numbered from 1, names as a test.
pub open spec fn test_at(fw: TestFramework, lines: Seq<String>, n: int) -> Option<Seq<char>> {
    capture_of(fw.test_pattern@, fw.test_capture@, lines[n - 1]@)
}

/// What a line, numbered from 1, names as a namespace; a line that names a test names no
/// namespace.
pub open spec fn namespace_at(fw: TestFramework, lines: Seq<String>, n: int) -> Option<Seq<char>> {
    if test_at(fw, lines, n) is Some {
        None
    } else {
        capture_of(fw.namespace_pattern@, fw.namespace_capture@, lines[n - 1]@)
    }
}

pub open spec fn test_hits(fw: TestFramework, lines: Seq<String>) -> spec_fn(int) -> Option<
    Seq<char>,
> {
    |n: int| test_at(fw, lines, n)
}

pub open spec fn namespace_hits(fw: TestFramework, lines: Seq<String>) -> spec_fn(int) -> Option<
    Seq<char>,
> {
    |n: int| namespace_at(fw, lines, n)
}

/// The last line at or above line `n` on which `hit` finds a name, with that name.
pub open spec fn last_hit(hit: spec_fn(int) -> Option<Seq<char>>, n: nat) -> Option<
    (Seq<char>, nat),
>
    decreases n,
{
    if n == 0 {
        None
    } else {
        match hit(n as int) {
            Some(s) => Some((s, n)),
            None => last_hit(hit, (n - 1) as nat),
        }
    }
}

/// Where a backward scan from `line` starts: that line, or the last line of a shorter file.
pub open spec fn scan_start(line: nat, len: nat) -> nat {
    if line < len {
        line
    } else {
        len
    }
}

/// The nearest test and the nearest namespace at or above `line`.
pub open spec fn nearest_model(fw: TestFramework, lines: Seq<String>, line: nat) -> (
    Option<(Seq<char>, nat)>,
    Option<(Seq<char>, nat)>,
) {
    let start = scan_start(line, lines.len());
    (last_hit(test_hits(fw, lines), start), last_hit(namespace_hits(fw, lines), start))
}

/// A name found on a line of a file.
#[derive(Debug, PartialEq, Eq)]
pub struct Found {
    pub name: String,
    pub line: usize,
}

pub open spec fn found_view(f: Option<Found>) -> Option<(Seq<char>, nat)> {
    match f {
        Some(x) => Some((x.name@, x.line as nat)),
        None => None,
    }
}

/// The test and the namespace that enclose a line.
#[derive(Debug, PartialEq, Eq)]
pub struct Nearest {
    pub test: Option<Found>,
    pub namespace: Option<Found>,
}

/// A test framework: the files it governs and how to run their tests.
pub struct TestFramework {
    pub language: Language,
    pub name: String,
    /// Matched against the path of a file, relative to the project root.
    pub pattern: String,
    pub default_program: String,
    pub args: Vec<String>,
    pub env: Vec<(String, String)>,
    pub test_pattern: String,
    /// The capture group of `test_pattern` that holds a test's name.
    pub test_capture: String,
    pub namespace_pattern: String,
    /// The capture group of `namespace_pattern` that holds a namespace's name.
    pub namespace_capture: String,
}

fn capture_with(p: &Result<NamedPattern, PatternError>, text: &str) -> (r: Option<String>)
    ensures
        r is Some <==> (p is Ok && regex_named_capture(p->Ok_0.pattern(), p->Ok_0.capture_name(), text@) is Some),
        r is Some ==> regex_named_capture(p->Ok_0.pattern(), p->Ok_0.capture_name(), text@) == Some(r->Some_0@),
{
    match p {
        Ok(np) => np.capture(text),
        Err(_) => None,
    }
}

impl TestFramework {
    pub fn language_name(&self) -> (r: &str)
        ensures
            r@ == self.language.name@,
    {
        self.language.name.as_str()
    }

    pub fn is_suitable_for(&self, context: &Context) -> (r: bool)
        ensures
            r == pattern_matches(self.pattern@, context.relative_path@),
    {
        match compile(self.pattern.as_str()) {
            Ok(m) => is_match(&m, context.relative_path.as_str()),
            Err(_) => false,
        }
    }

    pub fn build_program(&self) -> (r: String)
        ensures
            r@ == self.default_program@,
    {
        self.default_program.clone()
    }

    /// The program to run and the arguments that its string puts before all others.
    pub fn program(&self) -> (r: Result<(String, Vec<String>), AnytestError>)
        ensures
            match r {
                Ok((p, a)) => program_model(self.default_program@) == Ok::<
                    (Seq<char>, Seq<Seq<char>>),
                    AnytestError,
                >((p@, strs(a@))),
                Err(e) => program_model(self.default_program@) == Err::<
                    (Seq<char>, Seq<Seq<char>>),
                    AnytestError,
                >(e),
            },
            (forall|i: int|
                0 <= i < self.default_program@.len() ==> is_white_space(
                    #[trigger] self.default_program@[i],
                )) ==> r == Err::<(String, Vec<String>), AnytestError>(AnytestError::EmptyProgram),
    {
        let raw = self.build_program();
        let mut words = split_words(raw.as_str());
        proof {
            if forall|i: int|
                0 <= i < self.default_program@.len() ==> is_white_space(
                    #[trigger] self.default_program@[i],
                ) {
                lemma_blank_has_no_words(self.default_program@);
            }
        }
        if words.len() == 0 {
            Err(AnytestError::EmptyProgram)
        } else {
            let ghost all = words@;
            let program = words.remove(0);
            assert(strs(words@) =~= strs(all).skip(1));
            Ok((program, words))
        }
    }

    pub fn build_suite_position_args(&self, context: &Context) -> (r: Vec<String>)
        ensures
            r@.len() == 0,
    {
        Vec::new()
    }

    pub fn build_file_position_args(&self, context: &Context) -> (r: Vec<String>)
        ensures
            strs(r@) == seq![context.relative_path@],
    {
        let r = vec![context.relative_path.clone()];
        assert(strs(r@) =~= seq![context.relative_path@]);
        r
    }

    pub fn build_line_position_args(&self, context: &Context, line: usize) -> (r: Vec<String>)
        ensures
            strs(r@) == seq![path_with_line_text(context.relative_path@, line as nat)],
    {
        let r = vec![path_with_line(context.relative_path.as_str(), line)];
        assert(strs(r@) =~= seq![path_with_line_text(context.relative_path@, line as nat)]);
        r
    }

    /// The arguments that narrow a run to the scope of `context`.
    pub fn position_args(&self, context: &Context) -> (r: Result<Vec<String>, AnytestError>)
        ensures
            match r {
                Ok(v) => position_model(*context) == Ok::<Seq<Seq<char>>, AnytestError>(
                    strs(v@),
                ),
                Err(e) => position_model(*context) == Err::<Seq<Seq<char>>, AnytestError>(e),
            },
    {
        match context.scope {
            Scope::Suite => {
                let v = self.build_suite_position_args(context);
                assert(strs(v@) =~= seq![]);
                Ok(v)
            },
            Scope::File => Ok(self.build_file_position_args(context)),
            Scope::Line => match context.line {
                Some(l) => if l >= 1 {
                    Ok(self.build_line_position_args(context, l))
                } else {
                    Err(AnytestError::MissingLineNumber)
                },
                None => Err(AnytestError::MissingLineNumber),
            },
        }
    }

    /// The environment of a run: the language's entries, then the framework's own, which
    /// override them.
    pub fn merged_env(&self) -> (r: Vec<(String, String)>)
        ensures
            env_view(r@) == env_view(self.language.env@) + env_view(self.env@),
    {
        let mut out = copy_env(&self.language.env);
        append_env(&mut out, &self.env);
        out
    }

    /// The pattern that finds a test's declaration and its name.
    pub fn test_patterns(&self) -> (r: Result<NamedPattern, PatternError>)
        ensures
            r is Ok <==> pattern_usable(self.test_pattern@, self.test_capture@),
            r is Ok ==> r->Ok_0.pattern() == self.test_pattern@ && r->Ok_0.capture_name()
                == self.test_capture@,
    {
        NamedPattern::new(self.test_pattern.as_str(), self.test_capture.as_str())
    }

    /// The pattern that finds a namespace's declaration and its name.
    pub fn namespace_patterns(&self) -> (r: Result<NamedPattern, PatternError>)
        ensures
            r is Ok <==> pattern_usable(self.namespace_pattern@, self.namespace_capture@),
            r is Ok ==> r->Ok_0.pattern() == self.namespace_pattern@ && r->Ok_0.capture_name()
                == self.namespace_capture@,
    {
        NamedPattern::new(self.namespace_pattern.as_str(), self.namespace_capture.as_str())
    }

    /// The nearest test and namespace declared at or above the line of `context`, scanning
    /// `lines`, the lines of the file, upward.
    pub fn find_nearest(&self, context: &Context, lines: &Vec<String>) -> (r: Result<
        Nearest,
        AnytestError,
    >)
        ensures
            r is Err <==> requested_line(*context) is None,
            r is Err ==> r == Err::<Nearest, AnytestError>(AnytestError::MissingLineNumber),
            r is Ok ==> nearest_model(*self, lines@, requested_line(*context)->Some_0) == (
                found_view(r->Ok_0.test),
                found_view(r->Ok_0.namespace),
            ),
    {
        let line = match context.line {
            Some(l) => l,
            None => return Err(AnytestError::MissingLineNumber),
        };
        if line == 0 {
            return Err(AnytestError::MissingLineNumber);
        }
        let test_p = self.test_patterns();
        let ns_p = self.namespace_patterns();
        let start: usize = if line < lines.len() {
            line
        } else {
            lines.len()
        };
        let ghost th = test_hits(*self, lines@);
        let ghost nh = namespace_hits(*self, lines@);
        let mut n: usize = start;
        let mut test: Option<Found> = None;
        let mut namespace: Option<Found> = None;
        while n > 0 && (test.is_none() || namespace.is_none())
            invariant
                n <= start <= lines@.len(),
                start as nat == scan_start(line as nat, lines@.len()),
                th == test_hits(*self, lines@),
                nh == namespace_hits(*self, lines@),
                test_p is Ok <==> pattern_usable(self.test_pattern@, self.test_capture@),
                test_p is Ok ==> test_p->Ok_0.pattern() == self.test_pattern@
                    && test_p->Ok_0.capture_name() == self.test_capture@,
                ns_p is Ok <==> pattern_usable(self.namespace_pattern@, self.namespace_capture@),
                ns_p is Ok ==> ns_p->Ok_0.pattern() == self.namespace_pattern@
                    && ns_p->Ok_0.capture_name() == self.namespace_capture@,
                test is None ==> last_hit(th, start as nat) == last_hit(th, n as nat),
                test is Some ==> last_hit(th, start as nat) == found_view(test),
                namespace is None ==> last_hit(nh, start as nat) == last_hit(nh, n as nat),
                namespace is Some ==> last_hit(nh, start as nat) == found_view(namespace),
            decreases n,
        {
            let text = lines[n - 1].as_str();
            let tc = capture_with(&test_p, text);
            assert(tc is Some <==> th(n as int) is Some);
            let is_test = tc.is_some();
            if test.is_none() {
                match tc {
                    Some(s) => {
                        test = Some(Found { name: s, line: n });
                    },
                    None => {},
                }
            }
            if namespace.is_none() {
                if !is_test {
                    let nc = capture_with(&ns_p, text);
                    assert(nc is Some <==> nh(n as int) is Some);
                    match nc {
                        Some(s) => {
                            namespace = Some(Found { name: s, line: n });
                        },
                        None => {},
                    }
                } else {
                    assert(nh(n as int) is None);
                }
            }
            n = n - 1;
        }
        Ok(Nearest { test, namespace })
    }
}

} // verus!
