//! The two small grammars of the service, read character by character.
//!
//! The unique-constraint violation that Oracle reports reads
//! `ORA-00001: unique constraint (SCHEMA.NAME)`, where `SCHEMA` and `NAME` are
//! runs of word characters; the first such report in a message names the
//! violated constraint.
//!
//! A configuration placeholder reads `${NAME}` or `${NAME:DEFAULT}`, where
//! `NAME` is a run of word characters and `DEFAULT` holds no `}`; each
//! placeholder, from left to right, is replaced by the value of the variable
//! `NAME`, or by `DEFAULT` (empty when absent) where the variable is not set.
//!
//! A word character is a Unicode word character: alphabetic, a decimal
//! digit, a mark, connector punctuation or a join control.

use vstd::prelude::*;
use crate::text::{chars_of, push_char};

verus! {

/// Whether `c` is a Unicode word character, as `regex_syntax` decides it.
pub uninterp spec fn word_character(c: char) -> bool;

/// Whether `c` is an ASCII word character: `[_0-9a-zA-Z]`.
pub open spec fn ascii_word_character(c: char) -> bool {
    let u = c as u32;
    (48 <= u <= 57) || (65 <= u <= 90) || (97 <= u <= 122) || u == 95
}

/// `regex_syntax::is_word_character`: whether `c` is a Unicode word character.
/// Among ASCII characters, exactly `[_0-9a-zA-Z]` are (its ASCII check, and its
/// table, whose only ASCII ranges are `0-9`, `A-Z`, `_` and `a-z`).
#[verifier::external_body]
pub fn is_word_character(c: char) -> (r: bool)
    ensures
        r == word_character(c),
        (c as u32) < 128 ==> (r == ascii_word_character(c)),
{
    regex_syntax::is_word_character(c)
}

/// The end of the run of word characters that starts at `j`.
pub open spec fn word_run_end(s: Seq<char>, j: int) -> int
    decreases s.len() - j,
{
    if 0 <= j < s.len() && word_character(s[j]) {
        word_run_end(s, j + 1)
    } else {
        j
    }
}

proof fn lemma_word_run_end_bounds(s: Seq<char>, j: int)
    requires
        0 <= j <= s.len(),
    ensures
        j <= word_run_end(s, j) <= s.len(),
    decreases s.len() - j,
{
    if j < s.len() && word_character(s[j]) {
        lemma_word_run_end_bounds(s, j + 1);
    }
}

/// The end of the run of word characters in `s` that starts at `j`.
pub fn scan_word_run(s: &Vec<char>, j: usize) -> (e: usize)
    requires
        j <= s@.len(),
    ensures
        e == word_run_end(s@, j as int),
        j <= e <= s@.len(),
{
    let mut k = j;
    while k < s.len() && is_word_character(s[k])
        invariant
            j <= k <= s@.len(),
            word_run_end(s@, k as int) == word_run_end(s@, j as int),
        decreases s@.len() - k,
    {
        k = k + 1;
    }
    k
}

/// Whether `p` stands in `s` at position `i`.
pub open spec fn stands_at(s: Seq<char>, p: Seq<char>, i: int) -> bool {
    0 <= i && i + p.len() <= s.len() && s.subrange(i, i + p.len()) == p
}

fn matches_at(s: &Vec<char>, p: &Vec<char>, i: usize) -> (r: bool)
    ensures
        r == stands_at(s@, p@, i as int),
{
    if i > s.len() || p.len() > s.len() - i {
        return false;
    }
    let n = s.len();
    let mut k: usize = 0;
    while k < p.len()
        invariant
            n == s@.len(),
            i + p@.len() <= s@.len(),
            i <= s@.len(),
            k <= p@.len(),
            forall|t: int| 0 <= t < k ==> s@[i + t] == p@[t],
        decreases p@.len() - k,
    {
        if s[i + k] != p[k] {
            assert(s@.subrange(i as int, i + p@.len())[k as int] != p@[k as int]);
            return false;
        }
        k = k + 1;
    }
    assert(s@.subrange(i as int, i + p@.len()) =~= p@);
    true
}

/// The text that starts an Oracle unique-constraint violation.
pub open spec fn unique_violation_prefix() -> Seq<char> {
    "ORA-00001: unique constraint ("@
}

/// Where the constraint's name lies when a violation report starts at `i`.
pub open spec fn unique_violation_at(s: Seq<char>, i: int) -> Option<(int, int)> {
    if !stands_at(s, unique_violation_prefix(), i) {
        None
    } else {
        let a = i + unique_violation_prefix().len();
        let b = word_run_end(s, a);
        if b == a || b >= s.len() || s[b] != '.' {
            None
        } else {
            let c = b + 1;
            let d = word_run_end(s, c);
            if d == c || d >= s.len() || s[d] != ')' {
                None
            } else {
                Some((c, d))
            }
        }
    }
}

/// Where the name lies in the first violation report that starts at or after
/// `i`.
pub open spec fn first_unique_violation(s: Seq<char>, i: int) -> Option<(int, int)>
    decreases s.len() - i,
{
    if i < 0 || i >= s.len() {
        None
    } else {
        match unique_violation_at(s, i) {
            Some(r) => Some(r),
            None => first_unique_violation(s, i + 1),
        }
    }
}

/// The name of the constraint in the first violation report of a message.
pub open spec fn violated_constraint(s: Seq<char>) -> Option<Seq<char>> {
    match first_unique_violation(s, 0) {
        Some((c, d)) => Some(s.subrange(c, d)),
        None => None,
    }
}

/// Where the name lies in the first violation report of `s`: its start and end.
pub fn find_unique_violation(s: &Vec<char>) -> (r: Option<(usize, usize)>)
    ensures
        r is Some <==> first_unique_violation(s@, 0) is Some,
        r matches Some((c, d)) ==> first_unique_violation(s@, 0) == Some((c as int, d as int)) && c < d
            <= s@.len(),
{
    let prefix = chars_of("ORA-00001: unique constraint (");
    let mut i: usize = 0;
    while i < s.len()
        invariant
            i <= s@.len(),
            prefix@ == unique_violation_prefix(),
            first_unique_violation(s@, i as int) == first_unique_violation(s@, 0),
        decreases s@.len() - i,
    {
        if matches_at(s, &prefix, i) {
            let a = i + prefix.len();
            let b = scan_word_run(s, a);
            if b != a && b < s.len() && s[b] == '.' {
                let c = b + 1;
                let d = scan_word_run(s, c);
                if d != c && d < s.len() && s[d] == ')' {
                    return Some((c, d));
                }
            }
        }
        i = i + 1;
    }
    None
}

proof fn lemma_word_run_all_word(s: Seq<char>, j: int)
    requires
        0 <= j <= s.len(),
    ensures
        j <= word_run_end(s, j) <= s.len(),
        forall|t: int| j <= t < word_run_end(s, j) ==> word_character(#[trigger] s[t]),
    decreases s.len() - j,
{
    if j < s.len() && word_character(s[j]) {
        lemma_word_run_all_word(s, j + 1);
    }
}

proof fn lemma_first_violation_found(s: Seq<char>, i: int)
    requires
        0 <= i,
    ensures
        first_unique_violation(s, i) matches Some(x) ==> exists|k: int|
            i <= k < s.len() && #[trigger] unique_violation_at(s, k) == Some(x),
    decreases s.len() - i,
{
    if i < s.len() && unique_violation_at(s, i) is None {
        lemma_first_violation_found(s, i + 1);
    }
}

/// Whether every character of `w` is a word character.
pub open spec fn all_word_characters(w: Seq<char>) -> bool {
    forall|t: int| 0 <= t < w.len() ==> word_character(#[trigger] w[t])
}

/// Whether the message holds, somewhere, the text `ORA-00001: unique
/// constraint (`, a non-empty schema of word characters, `.`, the name `c`
/// (non-empty, of word characters) and `)`.
pub open spec fn reports_unique_violation(message: Seq<char>, c: Seq<char>) -> bool {
    exists|i: int, schema: Seq<char>|
        schema.len() > 0 && c.len() > 0 && all_word_characters(schema) && all_word_characters(c)
            && #[trigger] stands_at(message, "ORA-00001: unique constraint ("@ + schema + "."@ + c + ")"@, i)
}

/// A constraint name is found only in a report of an ORA-00001 violation: the
/// message holds, somewhere, the text `ORA-00001: unique constraint (`, a
/// non-empty schema of word characters, `.`, the name (non-empty, of word
/// characters) and `)`. So a message without `ORA-00001: unique constraint (`
/// names no constraint.
pub proof fn lemma_violation_is_reported(message: Seq<char>)
    ensures
        forall|c: Seq<char>| violated_constraint(message) == Some(c) ==> reports_unique_violation(message, c),
        (forall|i: int| !stands_at(message, "ORA-00001: unique constraint ("@, i)) ==> violated_constraint(
            message,
        ) is None,
{
    lemma_first_violation_found(message, 0);
    if let Some((cc, d)) = first_unique_violation(message, 0) {
        let k = choose|k: int| 0 <= k < message.len() && #[trigger] unique_violation_at(message, k) == Some((cc, d));
        let p = "ORA-00001: unique constraint ("@;
        assert(stands_at(message, p, k));
        let a = k + p.len();
        lemma_word_run_all_word(message, a);
        let b = word_run_end(message, a);
        lemma_word_run_all_word(message, b + 1);
        let schema = message.subrange(a, b);
        let c = message.subrange(cc, d);
        assert(all_word_characters(schema));
        assert(all_word_characters(c));
        reveal_strlit(".");
        reveal_strlit(")");
        let whole = p + schema + "."@ + c + ")"@;
        assert(message.subrange(k, d + 1) =~= message.subrange(k, a) + message.subrange(a, b)
            + message.subrange(b, b + 1) + message.subrange(cc, d) + message.subrange(d, d + 1));
        assert(message.subrange(b, b + 1) =~= "."@);
        assert(message.subrange(d, d + 1) =~= ")"@);
        assert(whole.len() == d + 1 - k);
        assert(stands_at(message, whole, k));
        assert(schema.len() > 0 && c.len() > 0);
        assert(violated_constraint(message) == Some(c));
        assert(reports_unique_violation(message, c));
    }
}

/// The configuration placeholder that starts at `i`: the variable's name, the
/// default (empty when none is written) and where the placeholder ends.
pub open spec fn placeholder_at(s: Seq<char>, i: int) -> Option<(Seq<char>, Seq<char>, int)> {
    if 0 <= i && i + 1 < s.len() && s[i] == '$' && s[i + 1] == '{' {
        let a = i + 2;
        let b = word_run_end(s, a);
        if b == a || b >= s.len() {
            None
        } else if s[b] == '}' {
            Some((s.subrange(a, b), Seq::empty(), b + 1))
        } else if s[b] == ':' {
            match first_closing_brace(s, b + 1) {
                Some(m) => Some((s.subrange(a, b), s.subrange(b + 1, m), m + 1)),
                None => None,
            }
        } else {
            None
        }
    } else {
        None
    }
}

/// The first `}` at or after `j`.
pub open spec fn first_closing_brace(s: Seq<char>, j: int) -> Option<int>
    decreases s.len() - j,
{
    if j < 0 || j >= s.len() {
        None
    } else if s[j] == '}' {
        Some(j)
    } else {
        first_closing_brace(s, j + 1)
    }
}

/// The value of the first variable in `env` with the given name.
pub open spec fn env_lookup(env: Seq<(Seq<char>, Seq<char>)>, name: Seq<char>) -> Option<Seq<char>>
    decreases env.len(),
{
    if env.len() == 0 {
        None
    } else if env[0].0 == name {
        Some(env[0].1)
    } else {
        env_lookup(env.drop_first(), name)
    }
}

/// The variables as pairs of character sequences.
pub open spec fn env_view(env: Seq<(String, String)>) -> Seq<(Seq<char>, Seq<char>)> {
    env.map_values(|p: (String, String)| (p.0@, p.1@))
}

/// `s` from position `i` on, with each placeholder replaced.
pub open spec fn substituted_from(s: Seq<char>, env: Seq<(Seq<char>, Seq<char>)>, i: int) -> Seq<char>
    decreases s.len() - i,
{
    if i < 0 || i >= s.len() {
        Seq::empty()
    } else {
        match placeholder_at(s, i) {
            Some((name, default, end)) => if i < end <= s.len() {
                (match env_lookup(env, name) {
                    Some(v) => v,
                    None => default,
                }) + substituted_from(s, env, end)
            } else {
                Seq::empty()
            },
            None => seq![s[i]] + substituted_from(s, env, i + 1),
        }
    }
}

/// `s` with each placeholder replaced, from left to right.
pub open spec fn substituted(s: Seq<char>, env: Seq<(Seq<char>, Seq<char>)>) -> Seq<char> {
    substituted_from(s, env, 0)
}

proof fn lemma_first_closing_brace(s: Seq<char>, j: int)
    requires
        0 <= j,
    ensures
        first_closing_brace(s, j) matches Some(m) ==> j <= m < s.len() && s[m] == '}',
    decreases s.len() - j,
{
    if j < s.len() && s[j] != '}' {
        lemma_first_closing_brace(s, j + 1);
    }
}

proof fn lemma_placeholder_bounds(s: Seq<char>, i: int)
    ensures
        placeholder_at(s, i) matches Some((n, d, e)) ==> i < e <= s.len(),
{
    if 0 <= i && i + 1 < s.len() && s[i] == '$' && s[i + 1] == '{' {
        lemma_word_run_end_bounds(s, i + 2);
        let b = word_run_end(s, i + 2);
        if b < s.len() {
            lemma_first_closing_brace(s, b + 1);
        }
    }
}

/// The value of the first variable with the given name.
fn lookup<'a>(env: &'a Vec<(String, String)>, name: &String) -> (r: Option<&'a String>)
    ensures
        env_lookup(env_view(env@), name@) == (match r {
            Some(v) => Some(v@),
            None => None::<Seq<char>>,
        }),
{
    let mut k: usize = 0;
    assert(env_view(env@).subrange(0, env@.len() as int) =~= env_view(env@));
    while k < env.len()
        invariant
            k <= env@.len(),
            env_lookup(env_view(env@).subrange(k as int, env@.len() as int), name@) == env_lookup(
                env_view(env@),
                name@,
            ),
        decreases env@.len() - k,
    {
        let ghost rest = env_view(env@).subrange(k as int, env@.len() as int);
        assert(rest.drop_first() =~= env_view(env@).subrange(k + 1, env@.len() as int));
        if env[k].0 == *name {
            return Some(&env[k].1);
        }
        k = k + 1;
    }
    assert(env_view(env@).subrange(k as int, env@.len() as int).len() == 0);
    None
}

/// The string made of `s[from..to]`.
fn string_of_range(s: &Vec<char>, from: usize, to: usize) -> (r: String)
    requires
        from <= to <= s@.len(),
    ensures
        r@ == s@.subrange(from as int, to as int),
{
    let mut r = String::new();
    let mut k = from;
    while k < to
        invariant
            from <= k <= to,
            to <= s@.len(),
            r@ == s@.subrange(from as int, k as int),
        decreases to - k,
    {
        push_char(&mut r, s[k]);
        k = k + 1;
        assert(r@ =~= s@.subrange(from as int, k as int));
    }
    r
}

/// The first `}` in `s` at or after `j`.
fn find_closing_brace(s: &Vec<char>, j: usize) -> (r: Option<usize>)
    ensures
        r == (match first_closing_brace(s@, j as int) {
            Some(m) => Some(m as usize),
            None => None::<usize>,
        }),
{
    let mut k = j;
    while k < s.len()
        invariant
            j <= k,
            first_closing_brace(s@, k as int) == first_closing_brace(s@, j as int),
        decreases s@.len() - k,
    {
        if s[k] == '}' {
            return Some(k);
        }
        k = k + 1;
    }
    None
}

/// The placeholder that starts at `i`, found in `s`: the name's range, the
/// default's range (when one is written) and the placeholder's end.
fn scan_placeholder(s: &Vec<char>, i: usize) -> (r: Option<(usize, usize, Option<(usize, usize)>, usize)>)
    requires
        i < s@.len(),
    ensures
        match placeholder_at(s@, i as int) {
            Some((name, default, end)) => r matches Some((a, b, d, e)) && a <= b <= s@.len()
                && s@.subrange(a as int, b as int) == name && e == end && (match d {
                Some((x, y)) => x <= y <= s@.len() && s@.subrange(x as int, y as int) == default,
                None => default.len() == 0,
            }),
            None => r is None,
        },
{
    if i < s.len() - 1 && s[i] == '$' && s[i + 1] == '{' {
        let a = i + 2;
        let b = scan_word_run(s, a);
        if b == a || b >= s.len() {
            return None;
        }
        if s[b] == '}' {
            return Some((a, b, None, b + 1));
        }
        if s[b] == ':' {
            proof {
                lemma_first_closing_brace(s@, b + 1);
            }
            match find_closing_brace(s, b + 1) {
                Some(m) => {
                    return Some((a, b, Some((b + 1, m)), m + 1));
                },
                None => {
                    return None;
                },
            }
        }
        None
    } else {
        None
    }
}

/// Replaces each placeholder `${NAME}` or `${NAME:DEFAULT}` of `content`, from
/// left to right, with the value of the variable `NAME` in `env` (its first
/// entry of that name), or with `DEFAULT` (empty when absent) where `env`
/// has no such variable.
pub fn substitute_env_vars(content: &str, env: &Vec<(String, String)>) -> (r: String)
    ensures
        r@ == substituted(content@, env_view(env@)),
{
    let s = chars_of(content);
    let mut out = String::new();
    let mut i: usize = 0;
    while i < s.len()
        invariant
            i <= s@.len(),
            s@ == content@,
            out@ + substituted_from(s@, env_view(env@), i as int) == substituted(
                s@,
                env_view(env@),
            ),
        decreases s@.len() - i,
    {
        proof {
            lemma_placeholder_bounds(s@, i as int);
        }
        match scan_placeholder(&s, i) {
            Some((a, b, default_range, end)) => {
                let name = string_of_range(&s, a, b);
                match lookup(env, &name) {
                    Some(value) => out.append(value.as_str()),
                    None => match default_range {
                        Some((x, y)) => {
                            let d = string_of_range(&s, x, y);
                            out.append(d.as_str());
                        },
                        None => {},
                    },
                }
                proof {
                    assert(out@ + substituted_from(s@, env_view(env@), end as int) == substituted(
                        s@,
                        env_view(env@),
                    ));
                }
                i = end;
            },
            None => {
                push_char(&mut out, s[i]);
                i = i + 1;
            },
        }
    }
    out
}

/// Text with no `$` is left as it is.
pub proof fn lemma_substitution_without_placeholders(s: Seq<char>, env: Seq<(Seq<char>, Seq<char>)>)
    requires
        !s.contains('$'),
    ensures
        substituted(s, env) == s,
{
    lemma_plain_suffix(s, env, 0);
    assert(s.subrange(0, s.len() as int) =~= s);
}

proof fn lemma_plain_suffix(s: Seq<char>, env: Seq<(Seq<char>, Seq<char>)>, i: int)
    requires
        !s.contains('$'),
        0 <= i <= s.len(),
    ensures
        substituted_from(s, env, i) == s.subrange(i, s.len() as int),
    decreases s.len() - i,
{
    if i < s.len() {
        assert(s[i] != '$');
        lemma_plain_suffix(s, env, i + 1);
        assert(seq![s[i]] + s.subrange(i + 1, s.len() as int) =~= s.subrange(i, s.len() as int));
    } else {
        assert(s.subrange(i, s.len() as int) =~= Seq::<char>::empty());
    }
}

proof fn lemma_plain_run(s: Seq<char>, env: Seq<(Seq<char>, Seq<char>)>, i: int, j: int)
    requires
        0 <= i <= j <= s.len(),
        forall|k: int| i <= k < j ==> s[k] != '$',
    ensures
        substituted_from(s, env, i) == s.subrange(i, j) + substituted_from(s, env, j),
    decreases j - i,
{
    if i < j {
        lemma_plain_run(s, env, i + 1, j);
        assert(placeholder_at(s, i) is None);
        assert(seq![s[i]] + s.subrange(i + 1, j) =~= s.subrange(i, j));
        assert(seq![s[i]] + (s.subrange(i + 1, j) + substituted_from(s, env, j)) =~= s.subrange(i, j)
            + substituted_from(s, env, j));
    } else {
        assert(s.subrange(i, j) =~= Seq::<char>::empty());
        assert(Seq::<char>::empty() + substituted_from(s, env, j) =~= substituted_from(s, env, j));
    }
}

proof fn lemma_word_run_exact(s: Seq<char>, a: int, b: int)
    requires
        0 <= a <= b < s.len(),
        forall|t: int| a <= t < b ==> word_character(#[trigger] s[t]),
        !word_character(s[b]),
    ensures
        word_run_end(s, a) == b,
    decreases b - a,
{
    if a < b {
        lemma_word_run_exact(s, a + 1, b);
    }
}

proof fn lemma_first_brace_exact(s: Seq<char>, j: int, m: int)
    requires
        0 <= j <= m < s.len(),
        forall|t: int| j <= t < m ==> s[t] != '}',
        s[m] == '}',
    ensures
        first_closing_brace(s, j) == Some(m),
    decreases m - j,
{
    if j < m {
        lemma_first_brace_exact(s, j + 1, m);
    }
}

/// Where `${name:default}` stands at `i`, substitution there gives the
/// variable's value (or the default) and goes on after the closing brace.
proof fn lemma_placeholder_step(
    s: Seq<char>,
    env: Seq<(Seq<char>, Seq<char>)>,
    i: int,
    name: Seq<char>,
    default: Seq<char>,
)
    requires
        0 <= i,
        stands_at(s, "${"@ + name + ":"@ + default + "}"@, i),
        name.len() > 0,
        all_word_characters(name),
        !word_character(':'),
        !default.contains('}'),
    ensures
        substituted_from(s, env, i) == (match env_lookup(env, name) {
            Some(v) => v,
            None => default,
        }) + substituted_from(s, env, i + name.len() + default.len() + 4),
{
    reveal_strlit("${");
    reveal_strlit(":");
    reveal_strlit("}");
    let whole = "${"@ + name + ":"@ + default + "}"@;
    let a = i + 2;
    let b = a + name.len();
    let m = b + 1 + default.len();
    assert(s.subrange(i, i + whole.len()) == whole);
    assert(s[i] == whole[0]);
    assert(s[i + 1] == whole[1]);
    assert forall|t: int| a <= t < b implies word_character(#[trigger] s[t]) by {
        assert(s[t] == whole[t - i]);
        assert(whole[t - i] == name[t - a]);
    }
    assert(s[b] == whole[b - i]);
    lemma_word_run_exact(s, a, b);
    assert forall|t: int| b + 1 <= t < m implies s[t] != '}' by {
        assert(s[t] == whole[t - i]);
        assert(whole[t - i] == default[t - b - 1]);
    }
    assert(s[m] == whole[m - i]);
    lemma_first_brace_exact(s, b + 1, m);
    assert forall|t: int| 0 <= t < name.len() implies #[trigger] s.subrange(a, b)[t] == name[t] by {
        assert(s[a + t] == whole[a + t - i]);
        assert(whole[a + t - i] == name[t]);
    }
    assert(s.subrange(a, b) =~= name);
    assert forall|t: int| 0 <= t < default.len() implies #[trigger] s.subrange(b + 1, m)[t] == default[t] by {
        assert(s[b + 1 + t] == whole[b + 1 + t - i]);
        assert(whole[b + 1 + t - i] == default[t]);
    }
    assert(s.subrange(b + 1, m) =~= default);
    assert(placeholder_at(s, i) == Some((name, default, m + 1)));
}

proof fn lemma_env_unset(env: Seq<(Seq<char>, Seq<char>)>, name: Seq<char>)
    requires
        forall|k: int| 0 <= k < env.len() ==> (#[trigger] env[k]).0 != name,
    ensures
        env_lookup(env, name) is None,
    decreases env.len(),
{
    if env.len() > 0 {
        assert(env[0].0 != name);
        assert forall|k: int| 0 <= k < env.drop_first().len() implies (#[trigger] env.drop_first()[k]).0 != name by {
            assert(env.drop_first()[k] == env[k + 1]);
        }
        lemma_env_unset(env.drop_first(), name);
    }
}

proof fn lemma_env_first(env: Seq<(Seq<char>, Seq<char>)>, name: Seq<char>, k: int)
    requires
        0 <= k < env.len(),
        env[k].0 == name,
        forall|j: int| 0 <= j < k ==> (#[trigger] env[j]).0 != name,
    ensures
        env_lookup(env, name) == Some(env[k].1),
    decreases k,
{
    if k > 0 {
        assert forall|j: int| 0 <= j < k - 1 implies (#[trigger] env.drop_first()[j]).0 != name by {
            assert(env.drop_first()[j] == env[j + 1]);
        }
        lemma_env_first(env.drop_first(), name, k - 1);
    }
}

proof fn lemma_plain_to_end(s: Seq<char>, env: Seq<(Seq<char>, Seq<char>)>, j: int)
    requires
        0 <= j <= s.len(),
        forall|k: int| j <= k < s.len() ==> s[k] != '$',
    ensures
        substituted_from(s, env, j) == s.subrange(j, s.len() as int),
{
    lemma_plain_run(s, env, j, s.len() as int);
    assert(substituted_from(s, env, s.len() as int) == Seq::<char>::empty());
    assert(s.subrange(j, s.len() as int) + Seq::<char>::empty() =~= s.subrange(j, s.len() as int));
}

/// The value that a placeholder with this name and default is replaced by.
spec fn replacement(env: Seq<(Seq<char>, Seq<char>)>, name: Seq<char>, default: Seq<char>) -> Seq<char> {
    match env_lookup(env, name) {
        Some(v) => v,
        None => default,
    }
}

/// Substitution over a text with one placeholder `${name:default}` standing
/// in it, and no other `$`.
#[verifier::rlimit(40)]
proof fn lemma_one_placeholder(
    s: Seq<char>,
    env: Seq<(Seq<char>, Seq<char>)>,
    before: Seq<char>,
    name: Seq<char>,
    default: Seq<char>,
    after: Seq<char>,
)
    requires
        s == before + ("${"@ + name + ":"@ + default + "}"@) + after,
        !before.contains('$'),
        !after.contains('$'),
        name.len() > 0,
        all_word_characters(name),
        !word_character(':'),
        !default.contains('}'),
    ensures
        substituted(s, env) == before + replacement(env, name, default) + after,
{
    reveal_strlit("${");
    reveal_strlit(":");
    reveal_strlit("}");
    let p = "${"@ + name + ":"@ + default + "}"@;
    let i = before.len() as int;
    let e = i + p.len();
    assert(p.len() == name.len() + default.len() + 4);
    assert forall|k: int| 0 <= k < i implies s[k] != '$' by {
        assert(s[k] == before[k]);
    }
    lemma_plain_run(s, env, 0, i);
    assert(s.subrange(i, e) =~= p);
    lemma_placeholder_step(s, env, i, name, default);
    assert forall|k: int| e <= k < s.len() implies s[k] != '$' by {
        assert(s[k] == after[k - e]);
    }
    lemma_plain_to_end(s, env, e);
    assert(s.subrange(0, i) =~= before);
    assert(s.subrange(e, s.len() as int) =~= after);
    let v = replacement(env, name, default);
    assert(substituted_from(s, env, i) == v + after);
    assert(substituted(s, env) == before + (v + after));
    assert(before + (v + after) =~= before + v + after);
}

/// A placeholder with a default, between text without placeholders, is
/// replaced by the variable's value when the variable is set (its first entry
/// in `env`), else by the default; the text around it is kept as it is. The
/// default ends at the first `}` after the `:`, so it holds no `}`.
pub proof fn lemma_placeholder_replaced(
    before: Seq<char>,
    name: Seq<char>,
    default: Seq<char>,
    after: Seq<char>,
    env: Seq<(Seq<char>, Seq<char>)>,
)
    requires
        !before.contains('$'),
        !after.contains('$'),
        name.len() > 0,
        all_word_characters(name),
        !word_character(':'),
        !default.contains('}'),
    ensures
        (forall|k: int| 0 <= k < env.len() ==> (#[trigger] env[k]).0 != name) ==> substituted(
            before + "${"@ + name + ":"@ + default + "}"@ + after,
            env,
        ) == before + default + after,
        forall|k: int|
            0 <= k < env.len() && (#[trigger] env[k]).0 == name && (forall|j: int|
                0 <= j < k ==> env[j].0 != name) ==> substituted(
                before + "${"@ + name + ":"@ + default + "}"@ + after,
                env,
            ) == before + env[k].1 + after,
{
    let s = before + "${"@ + name + ":"@ + default + "}"@ + after;
    assert(s =~= before + ("${"@ + name + ":"@ + default + "}"@) + after);
    lemma_one_placeholder(s, env, before, name, default, after);
    assert forall|k: int|
        0 <= k < env.len() && (#[trigger] env[k]).0 == name && (forall|j: int|
            0 <= j < k ==> env[j].0 != name) implies substituted(s, env) == before + env[k].1 + after by {
        lemma_env_first(env, name, k);
    }
    if forall|k: int| 0 <= k < env.len() ==> (#[trigger] env[k]).0 != name {
        lemma_env_unset(env, name);
    }
}

/// Two placeholders with defaults, with no variable set, become their two
/// defaults, and the text before, between and after them is kept as it is:
/// each default ends at its own first `}`.
#[verifier::rlimit(40)]
pub proof fn lemma_two_defaults(
    before: Seq<char>,
    name1: Seq<char>,
    default1: Seq<char>,
    between: Seq<char>,
    name2: Seq<char>,
    default2: Seq<char>,
    after: Seq<char>,
    env: Seq<(Seq<char>, Seq<char>)>,
)
    requires
        !before.contains('$'),
        !between.contains('$'),
        !after.contains('$'),
        name1.len() > 0,
        name2.len() > 0,
        all_word_characters(name1),
        all_word_characters(name2),
        !word_character(':'),
        !default1.contains('}'),
        !default2.contains('}'),
        forall|k: int| 0 <= k < env.len() ==> (#[trigger] env[k]).0 != name1 && env[k].0 != name2,
    ensures
        substituted(
            before + "${"@ + name1 + ":"@ + default1 + "}"@ + between + "${"@ + name2 + ":"@ + default2 + "}"@
                + after,
            env,
        ) == before + default1 + between + default2 + after,
{
    reveal_strlit("${");
    reveal_strlit(":");
    reveal_strlit("}");
    let p1 = "${"@ + name1 + ":"@ + default1 + "}"@;
    let p2 = "${"@ + name2 + ":"@ + default2 + "}"@;
    let rest = between + p2 + after;
    let s = before + "${"@ + name1 + ":"@ + default1 + "}"@ + between + "${"@ + name2 + ":"@ + default2 + "}"@
        + after;
    assert(s =~= before + p1 + rest);
    let i1 = before.len() as int;
    let e1 = i1 + p1.len();
    assert(p1.len() == name1.len() + default1.len() + 4);
    assert forall|k: int| 0 <= k < i1 implies s[k] != '$' by {
        assert(s[k] == before[k]);
    }
    lemma_plain_run(s, env, 0, i1);
    assert(s.subrange(i1, e1) =~= p1);
    lemma_placeholder_step(s, env, i1, name1, default1);
    lemma_env_unset(env, name1);
    assert(s.subrange(0, i1) =~= before);
    assert(substituted(s, env) == before + (default1 + substituted_from(s, env, e1)));
    assert(s.subrange(e1, s.len() as int) =~= between + p2 + after);
    lemma_suffix_one_placeholder(s, env, e1, between, name2, default2, after);
    lemma_env_unset(env, name2);
    assert(substituted_from(s, env, e1) == between + default2 + after);
    assert(before + (default1 + (between + default2 + after)) =~= before + default1 + between + default2 + after);
}

/// From `j` on, `s` reads `between`, one placeholder `${name:default}` and
/// `after`, with no other `$`.
#[verifier::rlimit(40)]
proof fn lemma_suffix_one_placeholder(
    s: Seq<char>,
    env: Seq<(Seq<char>, Seq<char>)>,
    j: int,
    between: Seq<char>,
    name: Seq<char>,
    default: Seq<char>,
    after: Seq<char>,
)
    requires
        0 <= j <= s.len(),
        s.subrange(j, s.len() as int) == between + ("${"@ + name + ":"@ + default + "}"@) + after,
        !between.contains('$'),
        !after.contains('$'),
        name.len() > 0,
        all_word_characters(name),
        !word_character(':'),
        !default.contains('}'),
    ensures
        substituted_from(s, env, j) == between + replacement(env, name, default) + after,
{
    reveal_strlit("${");
    reveal_strlit(":");
    reveal_strlit("}");
    let p = "${"@ + name + ":"@ + default + "}"@;
    let t = s.subrange(j, s.len() as int);
    let i = j + between.len();
    let e = i + p.len();
    assert(p.len() == name.len() + default.len() + 4);
    assert(t.len() == between.len() + p.len() + after.len());
    assert forall|k: int| j <= k < i implies s[k] != '$' by {
        assert(s[k] == t[k - j]);
        assert(t[k - j] == between[k - j]);
    }
    lemma_plain_run(s, env, j, i);
    assert forall|k: int| 0 <= k < p.len() implies #[trigger] s.subrange(i, e)[k] == p[k] by {
        assert(s[i + k] == t[i + k - j]);
        assert(t[i + k - j] == p[k]);
    }
    assert(s.subrange(i, e) =~= p);
    lemma_placeholder_step(s, env, i, name, default);
    assert forall|k: int| e <= k < s.len() implies s[k] != '$' by {
        assert(s[k] == t[k - j]);
        assert(t[k - j] == after[k - e]);
    }
    lemma_plain_to_end(s, env, e);
    assert forall|k: int| 0 <= k < between.len() implies #[trigger] s.subrange(j, i)[k] == between[k] by {
        assert(s[j + k] == t[k]);
    }
    assert(s.subrange(j, i) =~= between);
    assert forall|k: int| 0 <= k < after.len() implies #[trigger] s.subrange(e, s.len() as int)[k] == after[k] by {
        assert(s[e + k] == t[e + k - j]);
        assert(t[e + k - j] == after[k]);
    }
    assert(s.subrange(e, s.len() as int) =~= after);
    let v = replacement(env, name, default);
    assert(substituted_from(s, env, i) == v + after);
    assert(between + (v + after) =~= between + v + after);
}

/// A placeholder found at `i` ends with the first `}` after its name: its
/// default holds no `}`, and the character before its end is that `}`.
pub proof fn lemma_placeholder_shape(s: Seq<char>, i: int)
    ensures
        placeholder_at(s, i) matches Some((name, default, end)) ==> i < end <= s.len() && s[end - 1] == '}'
            && !default.contains('}'),
{
    lemma_placeholder_bounds(s, i);
    if let Some((name, default, end)) = placeholder_at(s, i) {
        let a = i + 2;
        lemma_word_run_all_word(s, a);
        let b = word_run_end(s, a);
        if s[b] == ':' {
            lemma_first_brace_before(s, b + 1);
            assert forall|t: int| 0 <= t < default.len() implies default[t] != '}' by {
                assert(default[t] == s[b + 1 + t]);
            }
        }
    }
}

proof fn lemma_first_brace_before(s: Seq<char>, j: int)
    requires
        0 <= j,
    ensures
        first_closing_brace(s, j) matches Some(m) ==> j <= m < s.len() && s[m] == '}' && forall|t: int|
            j <= t < m ==> s[t] != '}',
    decreases s.len() - j,
{
    if j < s.len() && s[j] != '}' {
        lemma_first_brace_before(s, j + 1);
    }
}

} // verus!
