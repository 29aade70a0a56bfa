use vstd::prelude::*;

use crate::framework::{
    strs, whitespace_words, words_after, env_get, env_view, last_hit, namespace_at, namespace_hits, nearest_model, test_at, test_hits,
    TestFramework,
};
use crate::registry::{
    CommandModel, build_model, command_result_view, first_suitable, is_first_suitable, suitable, CommandSpec,
    Registry,
};
use crate::{AnytestError, Context, Scope};

verus! {

proof fn lemma_some_suitable_has_first(fws: Seq<TestFramework>, path: Seq<char>, i: int)
    requires
        0 <= i < fws.len(),
        suitable(fws[i], path),
    ensures
        exists|k: int| is_first_suitable(fws, path, k),
    decreases i,
{
    if exists|j: int| 0 <= j < i && suitable(#[trigger] fws[j], path) {
        let j = choose|j: int| 0 <= j < i && suitable(#[trigger] fws[j], path);
        lemma_some_suitable_has_first(fws, path, j);
    } else {
        assert(is_first_suitable(fws, path, i));
    }
}

/// Selection picks the first framework, in order of registration, whose pattern matches
/// the path; there is none exactly when no pattern matches.
pub proof fn law_first_match_wins(fws: Seq<TestFramework>, path: Seq<char>)
    ensures
        match first_suitable(fws, path) {
            Some(i) => 0 <= i < fws.len() && suitable(fws[i], path) && forall|j: int|
                0 <= j < i ==> !suitable(#[trigger] fws[j], path),
            None => forall|i: int| 0 <= i < fws.len() ==> !suitable(#[trigger] fws[i], path),
        },
{
    if first_suitable(fws, path) is None {
        assert forall|i: int| 0 <= i < fws.len() implies !suitable(#[trigger] fws[i], path) by {
            if suitable(fws[i], path) {
                lemma_some_suitable_has_first(fws, path, i);
            }
        }
    }
}

proof fn lemma_last_hit_agree(
    h1: spec_fn(int) -> Option<Seq<char>>,
    h2: spec_fn(int) -> Option<Seq<char>>,
    n: nat,
)
    requires
        forall|k: int| 1 <= k <= n ==> #[trigger] h1(k) == h2(k),
    ensures
        last_hit(h1, n) == last_hit(h2, n),
    decreases n,
{
    if n > 0 {
        assert(h1(n as int) == h2(n as int));
        lemma_last_hit_agree(h1, h2, (n - 1) as nat);
    }
}

/// The nearest test and namespace depend only on the lines up to the requested one: two
/// files that agree up to that line give the same result, whatever follows it.
pub proof fn law_nearest_ignores_later_lines(
    fw: TestFramework,
    a: Seq<String>,
    b: Seq<String>,
    line: nat,
)
    requires
        line <= a.len(),
        line <= b.len(),
        a.subrange(0, line as int) == b.subrange(0, line as int),
    ensures
        nearest_model(fw, a, line) == nearest_model(fw, b, line),
{
    assert forall|k: int| 1 <= k <= line implies #[trigger] test_hits(fw, a)(k) == test_hits(
        fw,
        b,
    )(k) && namespace_hits(fw, a)(k) == namespace_hits(fw, b)(k) by {
        assert(a[k - 1] == a.subrange(0, line as int)[k - 1]);
        assert(b[k - 1] == b.subrange(0, line as int)[k - 1]);
        assert(test_at(fw, a, k) == test_at(fw, b, k));
        assert(namespace_at(fw, a, k) == namespace_at(fw, b, k));
    }
    assert forall|k: int| 1 <= k <= line implies #[trigger] namespace_hits(fw, a)(k)
        == namespace_hits(fw, b)(k) by {
        assert(test_hits(fw, a)(k) == test_hits(fw, b)(k));
    }
    lemma_last_hit_agree(test_hits(fw, a), test_hits(fw, b), line);
    lemma_last_hit_agree(namespace_hits(fw, a), namespace_hits(fw, b), line);
}

/// In environment entries `a` followed by `b`, a key that `b` sets has `b`'s value, and any
/// other key keeps its value from `a`.
pub proof fn law_later_env_overrides(
    a: Seq<(Seq<char>, Seq<char>)>,
    b: Seq<(Seq<char>, Seq<char>)>,
    key: Seq<char>,
)
    ensures
        env_get(a + b, key) == (if env_get(b, key) is Some {
            env_get(b, key)
        } else {
            env_get(a, key)
        }),
    decreases b.len(),
{
    if b.len() == 0 {
        assert(a + b == a);
    } else {
        assert((a + b).last() == b.last());
        assert((a + b).drop_last() == a + b.drop_last());
        law_later_env_overrides(a, b.drop_last(), key);
    }
}

/// The environment of a run takes a framework's own entries over its language's entries with
/// the same key, and keeps the keys that only one of them sets.
pub proof fn law_framework_env_overrides_language(fw: TestFramework, key: Seq<char>)
    ensures
        env_get(env_view(fw.language.env@) + env_view(fw.env@), key) == (if env_get(
            env_view(fw.env@),
            key,
        ) is Some {
            env_get(env_view(fw.env@), key)
        } else {
            env_get(env_view(fw.language.env@), key)
        }),
{
    law_later_env_overrides(env_view(fw.language.env@), env_view(fw.env@), key);
}

/// Two commands built from the same registry and the same context are the same.
pub proof fn law_build_command_deterministic(
    registry: Registry,
    context: Context,
    r1: Result<CommandSpec, AnytestError>,
    r2: Result<CommandSpec, AnytestError>,
)
    requires
        command_result_view(r1) == build_model(registry@, context),
        command_result_view(r2) == build_model(registry@, context),
    ensures
        command_result_view(r1) == command_result_view(r2),
{
}

/// "cargo test" splits into the program "cargo" and the argument "test".
pub proof fn law_cargo_test_words()
    ensures
        whitespace_words("cargo test"@) == seq!["cargo"@, "test"@],
{
    reveal_strlit("cargo test");
    reveal_strlit("cargo");
    reveal_strlit("test");
    let s = "cargo test"@;
    assert(s =~= seq!['c', 'a', 'r', 'g', 'o', ' ', 't', 'e', 's', 't']);
    assert(s.skip(0)[0] == 'c');
    assert(s.skip(0).skip(1) =~= s.skip(1));
    assert(Seq::<char>::empty().push('c') =~= seq!['c']);
    assert(words_after(s.skip(0), Seq::<char>::empty()) == words_after(s.skip(1), seq!['c']));
    assert(s.skip(1)[0] == 'a');
    assert(s.skip(1).skip(1) =~= s.skip(2));
    assert(seq!['c'].push('a') =~= seq!['c', 'a']);
    assert(words_after(s.skip(1), seq!['c']) == words_after(s.skip(2), seq!['c', 'a']));
    assert(s.skip(2)[0] == 'r');
    assert(s.skip(2).skip(1) =~= s.skip(3));
    assert(seq!['c', 'a'].push('r') =~= seq!['c', 'a', 'r']);
    assert(words_after(s.skip(2), seq!['c', 'a']) == words_after(s.skip(3), seq!['c', 'a', 'r']));
    assert(s.skip(3)[0] == 'g');
    assert(s.skip(3).skip(1) =~= s.skip(4));
    assert(seq!['c', 'a', 'r'].push('g') =~= seq!['c', 'a', 'r', 'g']);
    assert(words_after(s.skip(3), seq!['c', 'a', 'r']) == words_after(s.skip(4), seq!['c', 'a', 'r', 'g']));
    assert(s.skip(4)[0] == 'o');
    assert(s.skip(4).skip(1) =~= s.skip(5));
    assert(seq!['c', 'a', 'r', 'g'].push('o') =~= seq!['c', 'a', 'r', 'g', 'o']);
    assert(words_after(s.skip(4), seq!['c', 'a', 'r', 'g']) == words_after(s.skip(5), seq!['c', 'a', 'r', 'g', 'o']));
    assert(s.skip(5)[0] == ' ');
    assert(s.skip(5).skip(1) =~= s.skip(6));
    assert(words_after(s.skip(5), seq!['c', 'a', 'r', 'g', 'o']) =~= seq![seq!['c', 'a', 'r', 'g', 'o']] + words_after(s.skip(6), Seq::<char>::empty()));
    assert(s.skip(6)[0] == 't');
    assert(s.skip(6).skip(1) =~= s.skip(7));
    assert(Seq::<char>::empty().push('t') =~= seq!['t']);
    assert(words_after(s.skip(6), Seq::<char>::empty()) == words_after(s.skip(7), seq!['t']));
    assert(s.skip(7)[0] == 'e');
    assert(s.skip(7).skip(1) =~= s.skip(8));
    assert(seq!['t'].push('e') =~= seq!['t', 'e']);
    assert(words_after(s.skip(7), seq!['t']) == words_after(s.skip(8), seq!['t', 'e']));
    assert(s.skip(8)[0] == 's');
    assert(s.skip(8).skip(1) =~= s.skip(9));
    assert(seq!['t', 'e'].push('s') =~= seq!['t', 'e', 's']);
    assert(words_after(s.skip(8), seq!['t', 'e']) == words_after(s.skip(9), seq!['t', 'e', 's']));
    assert(s.skip(9)[0] == 't');
    assert(s.skip(9).skip(1) =~= s.skip(10));
    assert(seq!['t', 'e', 's'].push('t') =~= seq!['t', 'e', 's', 't']);
    assert(words_after(s.skip(9), seq!['t', 'e', 's']) == words_after(s.skip(10), seq!['t', 'e', 's', 't']));
    assert(s.skip(10).len() == 0);
    assert(words_after(s.skip(10), seq!['t', 'e', 's', 't']) =~= seq![seq!['t', 'e', 's', 't']]);
    assert(s.skip(0) =~= s);
    assert("cargo"@ =~= seq!['c', 'a', 'r', 'g', 'o']);
    assert("test"@ =~= seq!['t', 'e', 's', 't']);
    assert(words_after(s, Seq::<char>::empty()) =~= seq![seq!['c', 'a', 'r', 'g', 'o']] + seq![
        seq!['t', 'e', 's', 't'],
    ]);
    assert(whitespace_words(s) =~= seq!["cargo"@, "test"@]);
}

/// A suite run of a file governed by the first framework of a registry, whose program is
/// "cargo test" with no further arguments, is `cargo test` in the project root, with the
/// language's environment overridden by the framework's.
pub proof fn law_suite_command_end_to_end(fws: Seq<TestFramework>, context: Context)
    requires
        fws.len() >= 1,
        suitable(fws[0], context.relative_path@),
        fws[0].default_program@ == "cargo test"@,
        fws[0].args@.len() == 0,
        context.scope == Scope::Suite,
    ensures
        build_model(fws, context) == Ok::<CommandModel, AnytestError>(
            CommandModel {
                program: "cargo"@,
                args: seq!["test"@],
                cwd: context.root@,
                env: env_view(fws[0].language.env@) + env_view(fws[0].env@),
            },
        ),
{
    law_cargo_test_words();
    assert(is_first_suitable(fws, context.relative_path@, 0));
    law_first_match_wins(fws, context.relative_path@);
    let i = first_suitable(fws, context.relative_path@)->Some_0;
    assert(i == 0);
    assert(seq!["cargo"@, "test"@].skip(1) + strs(fws[0].args@) + seq![] =~= seq!["test"@]);
}

} // verus!
