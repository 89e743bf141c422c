//! Expansion of `${NAME}` and `${NAME:-default}` references in the
//! configuration text, from a snapshot of the process environment.
//!
//! A reference is `$`, `{`, a name of upper-case ASCII letters, digits and
//! `_` that does not start with a digit, then either `}` or `:-`, a
//! default of any characters but `}`, and `}`. The text is scanned from the
//! left; each reference found is replaced and the scan goes on after it.

use vstd::prelude::*;
use crate::config::ConfigError;
use crate::text::{chars_of, push_char, string_from_chars, views};

verus! {

/// One variable of the environment.
#[derive(Debug)]
pub struct EnvVar {
    pub name: String,
    pub value: String,
}

/// The value of the first variable of `env` named `name`.
pub open spec fn env_lookup(env: Seq<EnvVar>, name: Seq<char>) -> Option<Seq<char>>
    decreases env.len(),
{
    if env.len() == 0 {
        None
    } else if env[0].name@ == name {
        Some(env[0].value@)
    } else {
        env_lookup(env.drop_first(), name)
    }
}

/// A character that may start a variable name.
pub open spec fn is_name_start(c: char) -> bool {
    ('A' <= c && c <= 'Z') || c == '_'
}

/// A character that may continue a variable name.
pub open spec fn is_name_char(c: char) -> bool {
    ('A' <= c && c <= 'Z') || ('0' <= c && c <= '9') || c == '_'
}

/// How many name characters follow one another from position `j` of `s`.
pub open spec fn name_len(s: Seq<char>, j: int) -> nat
    decreases s.len() - j,
{
    if 0 <= j < s.len() && is_name_char(s[j]) {
        1 + name_len(s, j + 1)
    } else {
        0
    }
}

/// How many characters other than `}` follow one another from position `j` of `s`.
pub open spec fn default_len(s: Seq<char>, j: int) -> nat
    decreases s.len() - j,
{
    if 0 <= j < s.len() && s[j] != '}' {
        1 + default_len(s, j + 1)
    } else {
        0
    }
}

/// The reference that starts at position `i` of `s`, if one does: the
/// bounds of its name, those of its default if it has one, and the
/// position just after its closing brace.
pub open spec fn reference_at(s: Seq<char>, i: int) -> Option<(int, int, Option<(int, int)>, int)> {
    if 0 <= i && i + 2 < s.len() && s[i] == '$' && s[i + 1] == '{' && is_name_start(s[i + 2]) {
        let j: int = i + 3 + name_len(s, i + 3);
        if j < s.len() && s[j] == '}' {
            Some((i + 2, j, None, j + 1))
        } else if j + 1 < s.len() && s[j] == ':' && s[j + 1] == '-' {
            let k: int = j + 2 + default_len(s, j + 2);
            if k < s.len() {
                Some((i + 2, j, Some((j + 2, k)), k + 1))
            } else {
                None
            }
        } else {
            None
        }
    } else {
        None
    }
}

/// The expansion of `s` from position `i` on: the text, and the names of
/// the variables referenced without a default and not set.
pub open spec fn expand(s: Seq<char>, env: Seq<EnvVar>, i: int) -> (Seq<char>, Seq<Seq<char>>)
    decreases s.len() - i,
{
    if i < 0 || i >= s.len() {
        (Seq::empty(), Seq::empty())
    } else {
        match reference_at(s, i) {
            Some((a, b, d, e)) => {
                let rest = expand(s, env, e);
                let name = s.subrange(a, b);
                match env_lookup(env, name) {
                    Some(v) => (v + rest.0, rest.1),
                    None => match d {
                        Some((c, f)) => (s.subrange(c, f) + rest.0, rest.1),
                        None => (rest.0, seq![name] + rest.1),
                    },
                }
            },
            None => {
                let rest = expand(s, env, i + 1);
                (seq![s[i]] + rest.0, rest.1)
            },
        }
    }
}

/// The expanded text, or the names of the unset variables referenced
/// without a default, in order, repeats included.
pub open spec fn interpolation(s: Seq<char>, env: Seq<EnvVar>) -> Result<Seq<char>, Seq<Seq<char>>> {
    let (out, missing) = expand(s, env, 0);
    if missing.len() == 0 {
        Ok(out)
    } else {
        Err(missing)
    }
}

fn is_name_start_char(c: char) -> (b: bool)
    ensures
        b == is_name_start(c),
{
    ('A' <= c && c <= 'Z') || c == '_'
}

fn is_name_continue_char(c: char) -> (b: bool)
    ensures
        b == is_name_char(c),
{
    ('A' <= c && c <= 'Z') || ('0' <= c && c <= '9') || c == '_'
}

/// The spec form of a reference found by `find_reference`.
pub open spec fn span_of(
    r: Option<(usize, usize, Option<(usize, usize)>, usize)>,
) -> Option<(int, int, Option<(int, int)>, int)> {
    match r {
        None => None,
        Some((a, b, d, e)) => Some(
            (
                a as int,
                b as int,
                match d {
                    None => None,
                    Some((c, f)) => Some((c as int, f as int)),
                },
                e as int,
            ),
        ),
    }
}

/// The reference that starts at position `i` of `v`, if one does.
fn find_reference(v: &Vec<char>, i: usize) -> (r: Option<(usize, usize, Option<(usize, usize)>, usize)>)
    requires
        i < v.len(),
    ensures
        span_of(r) == reference_at(v@, i as int),
{
    let n: usize = v.len();
    if !(n - i > 2 && v[i] == '$' && v[i + 1] == '{' && is_name_start_char(v[i + 2])) {
        return None;
    }
    let mut j: usize = i + 3;
    while j < n && is_name_continue_char(v[j])
        invariant
            i + 3 <= j <= n,
            n == v@.len(),
            j + name_len(v@, j as int) == i + 3 + name_len(v@, i + 3),
        decreases n - j,
    {
        j = j + 1;
    }
    if j < n && v[j] == '}' {
        return Some((i + 2, j, None, j + 1));
    }
    if !(j < n && n - j > 1 && v[j] == ':' && v[j + 1] == '-') {
        return None;
    }
    let mut k: usize = j + 2;
    while k < n && v[k] != '}'
        invariant
            j + 2 <= k <= n,
            n == v@.len(),
            k + default_len(v@, k as int) == j + 2 + default_len(v@, j + 2),
        decreases n - k,
    {
        k = k + 1;
    }
    if k < n {
        Some((i + 2, j, Some((j + 2, k)), k + 1))
    } else {
        None
    }
}

/// Where in `env` the first variable named `name` stands.
fn find_env_var(env: &Vec<EnvVar>, name: &String) -> (r: Option<usize>)
    ensures
        match r {
            Some(k) => k < env@.len() && env_lookup(env@, name@) == Some(env@[k as int].value@),
            None => env_lookup(env@, name@) is None,
        },
{
    let mut i: usize = 0;
    assert(env@.skip(0) =~= env@);
    while i < env.len()
        invariant
            i <= env@.len(),
            env_lookup(env@, name@) == env_lookup(env@.skip(i as int), name@),
        decreases env.len() - i,
    {
        assert(env@.skip(i as int)[0] == env@[i as int]);
        if env[i].name == *name {
            return Some(i);
        }
        assert(env@.skip(i as int).drop_first() =~= env@.skip(i + 1));
        i = i + 1;
    }
    None
}

/// Expands every `${NAME}` and `${NAME:-default}` reference of `input`
/// from `env`. A set variable gives its value, an unset one its default;
/// when an unset variable is referenced without a default, the error
/// lists every such name, in order.
pub fn interpolate_env(input: &str, env: &Vec<EnvVar>) -> (r: Result<String, ConfigError>)
    ensures
        match r {
            Ok(out) => interpolation(input@, env@) == Ok::<Seq<char>, Seq<Seq<char>>>(out@),
            Err(ConfigError::MissingEnvVars(names)) => interpolation(input@, env@) == Err::<
                Seq<char>,
                Seq<Seq<char>>,
            >(views(names@)),
            Err(_) => false,
        },
{
    let v = chars_of(input);
    let ghost s = v@;
    let ghost whole = expand(s, env@, 0);
    let n: usize = v.len();
    let mut out = String::new();
    let mut missing: Vec<String> = Vec::new();
    let mut i: usize = 0;
    while i < n
        invariant
            n == v@.len(),
            s == v@,
            i <= n,
            whole == expand(s, env@, 0),
            out@ + expand(s, env@, i as int).0 == whole.0,
            views(missing@) + expand(s, env@, i as int).1 == whole.1,
        decreases n - i,
    {
        let ghost before = expand(s, env@, i as int);
        match find_reference(&v, i) {
            Some((a, b, d, e)) => {
                let ghost rest = expand(s, env@, e as int);
                let name = string_from_chars(&v, a, b);
                match find_env_var(env, &name) {
                    Some(k) => {
                        out.append(env[k].value.as_str());
                        assert(before.0 == env@[k as int].value@ + rest.0);
                    },
                    None => match d {
                        Some((c, f)) => {
                            let dflt = string_from_chars(&v, c, f);
                            out.append(dflt.as_str());
                        },
                        None => {
                            let ghost old_missing = missing@;
                            missing.push(name);
                            assert(views(missing@) =~= views(old_missing).push(s.subrange(
                                a as int,
                                b as int,
                            )));
                        },
                    },
                }
                i = e;
            },
            None => {
                push_char(&mut out, v[i]);
                i = i + 1;
            },
        }
    }
    if missing.len() == 0 {
        Ok(out)
    } else {
        Err(ConfigError::MissingEnvVars(missing))
    }
}


proof fn lemma_expand_plain(s: Seq<char>, env: Seq<EnvVar>, i: int)
    requires
        0 <= i <= s.len(),
        forall|k: int| i <= k < s.len() ==> s[k] != '$',
    ensures
        expand(s, env, i) == (s.subrange(i, s.len() as int), Seq::<Seq<char>>::empty()),
    decreases s.len() - i,
{
    if i < s.len() {
        lemma_expand_plain(s, env, i + 1);
        assert(seq![s[i]] + s.subrange(i + 1, s.len() as int) =~= s.subrange(i, s.len() as int));
    } else {
        assert(s.subrange(i, s.len() as int) =~= Seq::<char>::empty());
    }
}

/// Text in which no `$` occurs comes out of the expansion unchanged.
pub proof fn law_text_without_references_unchanged(s: Seq<char>, env: Seq<EnvVar>)
    requires
        forall|k: int| 0 <= k < s.len() ==> s[k] != '$',
    ensures
        interpolation(s, env) == Ok::<Seq<char>, Seq<Seq<char>>>(s),
{
    lemma_expand_plain(s, env, 0);
    assert(s.subrange(0, s.len() as int) =~= s);
}

proof fn lemma_name_len(t: Seq<char>, j: int, m: int)
    requires
        0 <= j,
        0 <= m,
        j + m <= t.len(),
        forall|k: int| j <= k < j + m ==> is_name_char(t[k]),
        j + m == t.len() || !is_name_char(t[j + m]),
    ensures
        name_len(t, j) == m,
    decreases m,
{
    if m > 0 {
        lemma_name_len(t, j + 1, m - 1);
    }
}

proof fn lemma_default_len(t: Seq<char>, j: int, m: int)
    requires
        0 <= j,
        0 <= m,
        j + m <= t.len(),
        forall|k: int| j <= k < j + m ==> t[k] != '}',
        j + m == t.len() || t[j + m] == '}',
    ensures
        default_len(t, j) == m,
    decreases m,
{
    if m > 0 {
        lemma_default_len(t, j + 1, m - 1);
    }
}

/// A valid variable name.
pub open spec fn is_var_name(name: Seq<char>) -> bool {
    &&& name.len() > 0
    &&& is_name_start(name[0])
    &&& forall|k: int| 0 <= k < name.len() ==> is_name_char(#[trigger] name[k])
}

/// `${NAME}` expands to the value of `NAME`; when `NAME` is not set the
/// expansion fails and names it.
pub proof fn law_reference_expands_to_value(name: Seq<char>, env: Seq<EnvVar>)
    requires
        is_var_name(name),
    ensures
        interpolation(seq!['$', '{'] + name + seq!['}'], env) == (match env_lookup(env, name) {
            Some(v) => Ok::<Seq<char>, Seq<Seq<char>>>(v),
            None => Err(seq![name]),
        }),
{
    let t = seq!['$', '{'] + name + seq!['}'];
    let m: int = name.len() as int;
    assert(forall|k: int| 0 <= k < m ==> t[k + 2] == name[k]);
    assert forall|k: int| 3 <= k < 2 + m implies is_name_char(t[k]) by {
        assert(t[k] == name[k - 2]);
    }
    lemma_name_len(t, 3, m - 1);
    assert(t.subrange(2, 2 + m) =~= name);
    assert(reference_at(t, 0) == Some::<(int, int, Option<(int, int)>, int)>((2, 2 + m, None, 3 + m)));
    assert(expand(t, env, 3 + m) == (Seq::<char>::empty(), Seq::<Seq<char>>::empty()));
    assert(seq![name] + Seq::<Seq<char>>::empty() =~= seq![name]);
    match env_lookup(env, name) {
        Some(v) => {
            assert(v + Seq::<char>::empty() =~= v);
        },
        None => {},
    }
}

/// `${NAME:-default}` expands to the value of `NAME`, or to the default
/// when `NAME` is not set; it never fails.
pub proof fn law_reference_with_default_never_fails(
    name: Seq<char>,
    default: Seq<char>,
    env: Seq<EnvVar>,
)
    requires
        is_var_name(name),
        forall|k: int| 0 <= k < default.len() ==> default[k] != '}',
    ensures
        interpolation(seq!['$', '{'] + name + seq![':', '-'] + default + seq!['}'], env) == Ok::<
            Seq<char>,
            Seq<Seq<char>>,
        >(
            match env_lookup(env, name) {
                Some(v) => v,
                None => default,
            },
        ),
{
    let t = seq!['$', '{'] + name + seq![':', '-'] + default + seq!['}'];
    let m: int = name.len() as int;
    let dl: int = default.len() as int;
    assert(forall|k: int| 0 <= k < m ==> t[k + 2] == name[k]);
    assert forall|k: int| 3 <= k < 2 + m implies is_name_char(t[k]) by {
        assert(t[k] == name[k - 2]);
    }
    assert(t[2 + m] == ':');
    assert(t[3 + m] == '-');
    lemma_name_len(t, 3, m - 1);
    assert forall|k: int| 4 + m <= k < 4 + m + dl implies t[k] != '}' by {
        assert(t[k] == default[k - 4 - m]);
    }
    assert(t[4 + m + dl] == '}');
    lemma_default_len(t, 4 + m, dl);
    assert(t.subrange(2, 2 + m) =~= name);
    assert(t.subrange(4 + m, 4 + m + dl) =~= default);
    assert(reference_at(t, 0) == Some::<(int, int, Option<(int, int)>, int)>(
        (2, 2 + m, Some((4 + m, 4 + m + dl)), 5 + m + dl),
    ));
    assert(expand(t, env, 5 + m + dl) == (Seq::<char>::empty(), Seq::<Seq<char>>::empty()));
    match env_lookup(env, name) {
        Some(v) => {
            assert(v + Seq::<char>::empty() =~= v);
        },
        None => {
            assert(default + Seq::<char>::empty() =~= default);
        },
    }
}

proof fn lemma_shift_name_len(p: Seq<char>, t: Seq<char>, j: int)
    requires
        0 <= j,
    ensures
        name_len(p + t, p.len() + j) == name_len(t, j),
    decreases t.len() - j,
{
    if j < t.len() {
        assert((p + t)[p.len() + j] == t[j]);
        lemma_shift_name_len(p, t, j + 1);
    }
}

proof fn lemma_shift_default_len(p: Seq<char>, t: Seq<char>, j: int)
    requires
        0 <= j,
    ensures
        default_len(p + t, p.len() + j) == default_len(t, j),
    decreases t.len() - j,
{
    if j < t.len() {
        assert((p + t)[p.len() + j] == t[j]);
        lemma_shift_default_len(p, t, j + 1);
    }
}

/// A span moved `k` positions to the right.
pub open spec fn shift_span(
    r: Option<(int, int, Option<(int, int)>, int)>,
    k: int,
) -> Option<(int, int, Option<(int, int)>, int)> {
    match r {
        None => None,
        Some((a, b, d, e)) => Some(
            (
                a + k,
                b + k,
                match d {
                    None => None,
                    Some((c, f)) => Some((c + k, f + k)),
                },
                e + k,
            ),
        ),
    }
}

proof fn lemma_shift_reference_at(p: Seq<char>, t: Seq<char>, i: int)
    requires
        0 <= i,
    ensures
        reference_at(p + t, p.len() + i) == shift_span(reference_at(t, i), p.len() as int),
        reference_at(t, i) matches Some((a, b, d, e)) ==> i < e <= t.len() && i + 2 <= a <= b
            <= e && match d {
            Some((c, f)) => b <= c <= f < e,
            None => true,
        },
{
    let q = p + t;
    let k = p.len() as int;
    if 0 <= i && i + 2 < t.len() {
        assert(q[k + i] == t[i]);
        assert(q[k + i + 1] == t[i + 1]);
        assert(q[k + i + 2] == t[i + 2]);
    }
    lemma_shift_name_len(p, t, i + 3);
    let j = i + 3 + name_len(t, i + 3);
    if j < t.len() {
        assert(q[k + j] == t[j]);
    }
    if j + 1 < t.len() {
        assert(q[k + j + 1] == t[j + 1]);
    }
    lemma_shift_default_len(p, t, j + 2);
}

proof fn lemma_shift_expand(p: Seq<char>, t: Seq<char>, env: Seq<EnvVar>, i: int)
    requires
        0 <= i <= t.len(),
    ensures
        expand(p + t, env, p.len() + i) == expand(t, env, i),
    decreases t.len() - i,
{
    let q = p + t;
    let k = p.len() as int;
    if i < t.len() {
        lemma_shift_reference_at(p, t, i);
        match reference_at(t, i) {
            Some((a, b, d, e)) => {
                lemma_shift_expand(p, t, env, e);
                assert(q.subrange(a + k, b + k) =~= t.subrange(a, b));
                match d {
                    Some((c, f)) => {
                        assert(q.subrange(c + k, f + k) =~= t.subrange(c, f));
                    },
                    None => {},
                }
            },
            None => {
                lemma_shift_expand(p, t, env, i + 1);
                assert(q[k + i] == t[i]);
            },
        }
    }
}

/// Expansion goes on past a reference: `${NAME}` followed by any text
/// expands to the value of `NAME` followed by the expansion of that text;
/// when `NAME` is not set, the expansion fails and names it first, then
/// the unset names of the text.
pub proof fn law_reference_then_text_expands_both(name: Seq<char>, t: Seq<char>, env: Seq<EnvVar>)
    requires
        is_var_name(name),
    ensures
        interpolation(seq!['$', '{'] + name + seq!['}'] + t, env) == (match env_lookup(env, name) {
            Some(v) => match interpolation(t, env) {
                Ok(x) => Ok::<Seq<char>, Seq<Seq<char>>>(v + x),
                Err(missing) => Err(missing),
            },
            None => match interpolation(t, env) {
                Ok(_) => Err(seq![name]),
                Err(missing) => Err(seq![name] + missing),
            },
        }),
{
    let p = seq!['$', '{'] + name + seq!['}'];
    let q = p + t;
    let m = name.len() as int;
    assert(p.len() == m + 3);
    assert(forall|k: int| 0 <= k < m ==> q[k + 2] == name[k]);
    assert(q[0] == '$' && q[1] == '{' && q[2 + m] == '}');
    assert forall|k: int| 3 <= k < 2 + m implies is_name_char(q[k]) by {
        assert(q[k] == name[k - 2]);
    }
    lemma_name_len(q, 3, m - 1);
    assert(q.subrange(2, 2 + m) =~= name);
    assert(reference_at(q, 0) == Some::<(int, int, Option<(int, int)>, int)>((2, 2 + m, None, 3 + m)));
    lemma_shift_expand(p, t, env, 0);
    assert(expand(q, env, 3 + m) == expand(t, env, 0));
    let rest = expand(t, env, 0);
    assert((seq![name] + rest.1).len() > 0);
    assert(seq![name] + rest.1 =~= seq![name] + rest.1);
}

} // verus!
