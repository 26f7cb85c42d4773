//! Expansion of `~` and `$VARIABLE` references inside configured paths.
//!
//! The expansion is pure: the caller hands in the home directory and the
//! environment as a list of name-value pairs, and gets back the path with
//! a leading `~` and every unescaped variable reference replaced.  A
//! reference to a name the environment lacks is kept literally, as is a
//! `$` that is escaped by an odd run of backslashes or not followed by at
//! least two characters of a valid variable name's shape.

use vstd::prelude::*;
use vstd::string::*;

use crate::codec::pairs_view;
use crate::strutil::{eq_str, find_char, find_char_from, push_char};

verus! {

/// A character that may appear in a variable name: ASCII alphanumeric or
/// an underscore.
pub open spec fn spec_valid_varname_char(c: char) -> bool {
    ('a' <= c && c <= 'z') || ('A' <= c && c <= 'Z') || ('0' <= c && c <= '9') || c == '_'
}

pub fn is_valid_varname_char(chr: char) -> (r: bool)
    ensures
        r == spec_valid_varname_char(chr),
{
    ('a' <= chr && chr <= 'z') || ('A' <= chr && chr <= 'Z') || ('0' <= chr && chr <= '9') || chr
        == '_'
}

/// Whether the position right after these bytes is backslash-escaped: the
/// bytes end in an odd run of backslashes.
pub open spec fn spec_escaped_bytes(b: Seq<u8>) -> bool
    decreases b.len(),
{
    if b.len() == 0 {
        false
    } else if b.last() != 92 {
        false
    } else {
        !spec_escaped_bytes(b.drop_last())
    }
}

/// Checks if the position right after the given bytes is backslash
/// escaped, by the parity of the run of backslashes they end in.
pub fn is_char_escaped(bytes: &[u8]) -> (r: bool)
    ensures
        r == spec_escaped_bytes(bytes@),
{
    let mut escaped = false;
    let mut n = bytes.len();
    proof {
        assert(bytes@.take(bytes@.len() as int) =~= bytes@);
    }
    while n > 0 && bytes[n - 1] == 92
        invariant
            0 <= n <= bytes@.len(),
            spec_escaped_bytes(bytes@) == (escaped != spec_escaped_bytes(
                bytes@.take(n as int),
            )),
        decreases n,
    {
        proof {
            let t = bytes@.take(n as int);
            assert(t.last() == bytes@[n - 1]);
            assert(t.drop_last() =~= bytes@.take(n - 1));
        }
        escaped = !escaped;
        n = n - 1;
    }
    proof {
        let t = bytes@.take(n as int);
        if n > 0 {
            assert(t.last() == bytes@[n - 1]);
        }
        assert(!spec_escaped_bytes(t));
    }
    escaped
}

/// The same parity test over characters, for the expansion itself.
pub open spec fn spec_escaped_chars(s: Seq<char>) -> bool
    decreases s.len(),
{
    if s.len() == 0 {
        false
    } else if s.last() != '\\' {
        false
    } else {
        !spec_escaped_chars(s.drop_last())
    }
}

fn ends_escaped(s: &str) -> (r: bool)
    ensures
        r == spec_escaped_chars(s@),
{
    let mut escaped = false;
    let mut n = s.unicode_len();
    proof {
        assert(s@.take(s@.len() as int) =~= s@);
    }
    while n > 0 && s.get_char(n - 1) == '\\'
        invariant
            0 <= n <= s@.len(),
            spec_escaped_chars(s@) == (escaped != spec_escaped_chars(s@.take(n as int))),
        decreases n,
    {
        proof {
            let t = s@.take(n as int);
            assert(t.last() == s@[n - 1]);
            assert(t.drop_last() =~= s@.take(n - 1));
        }
        escaped = !escaped;
        n = n - 1;
    }
    proof {
        let t = s@.take(n as int);
        if n > 0 {
            assert(t.last() == s@[n - 1]);
        }
        assert(!spec_escaped_chars(t));
    }
    escaped
}

/// The value of the first environment entry with this name, if any.
pub open spec fn lookup_var(env: Seq<(Seq<char>, Seq<char>)>, name: Seq<char>) -> Option<Seq<char>>
    decreases env.len(),
{
    if env.len() == 0 {
        None
    } else if env[0].0 == name {
        Some(env[0].1)
    } else {
        lookup_var(env.drop_first(), name)
    }
}

fn env_get(env: &Vec<(String, String)>, name: &str) -> (r: Option<String>)
    ensures
        match r {
            Some(v) => lookup_var(pairs_view(env@), name@) == Some(v@),
            None => lookup_var(pairs_view(env@), name@) is None,
        },
{
    let ghost ev = pairs_view(env@);
    let n = env.len();
    proof {
        assert(ev.skip(0) =~= ev);
    }
    let mut i: usize = 0;
    while i < n
        invariant
            0 <= i <= n,
            n == env@.len(),
            ev == pairs_view(env@),
            lookup_var(ev, name@) == lookup_var(ev.skip(i as int), name@),
        decreases n - i,
    {
        proof {
            assert(ev[i as int] == (env@[i as int].0@, env@[i as int].1@));
            assert(ev.skip(i as int)[0] == ev[i as int]);
            assert(ev.skip(i as int).drop_first() =~= ev.skip(i + 1));
        }
        if eq_str(env[i].0.as_str(), name) {
            return Some(env[i].1.clone());
        }
        i = i + 1;
    }
    proof {
        assert(ev.skip(n as int).len() == 0);
    }
    None
}

/// The length of the variable name starting a remainder: the run of valid
/// name characters from the front, at least one.
pub open spec fn varname_end(rest: Seq<char>, j: int) -> int
    decreases rest.len() - j,
{
    if j < 0 || j >= rest.len() {
        rest.len() as int
    } else if !spec_valid_varname_char(rest[j]) {
        j
    } else {
        varname_end(rest, j + 1)
    }
}

/// A found position lies between where the search began and the end.
pub proof fn lemma_find_char_some_bounds(s: Seq<char>, c: char, i: int)
    requires
        0 <= i <= s.len(),
    ensures
        find_char_from(s, c, i) matches Some(d) ==> i <= d < s.len() && s[d] == c,
    decreases s.len() - i,
{
    if i < s.len() {
        lemma_find_char_some_bounds(s, c, i + 1);
    }
}

/// The end of a name never lies before where the scan began, nor past the
/// end.
pub proof fn lemma_varname_end_bounds(rest: Seq<char>, j: int)
    requires
        0 <= j <= rest.len(),
    ensures
        j <= varname_end(rest, j) <= rest.len(),
    decreases rest.len() - j,
{
    if j < rest.len() && spec_valid_varname_char(rest[j]) {
        lemma_varname_end_bounds(rest, j + 1);
    }
}

/// One pass of the expansion over what is left of the path: everything up
/// to the next `$` is kept; the `$` is kept literally when fewer than two
/// characters follow it, when no valid name character follows it, or when
/// it is escaped; otherwise the longest valid name after it is looked up
/// and replaced by its value, or kept literally with its `$` when the
/// environment lacks it.  A substituted value is not scanned again.
pub open spec fn expand_rest(rem: Seq<char>, env: Seq<(Seq<char>, Seq<char>)>) -> Seq<char>
    decreases rem.len(),
    via expand_rest_decreases
{
    match find_char_from(rem, '$', 0) {
        None => rem,
        Some(d) => {
            let prefix = rem.take(d);
            let rest = rem.skip(d + 1);
            if rest.len() <= 1 || !spec_valid_varname_char(rest[0]) || spec_escaped_chars(prefix) {
                prefix + seq!['$'] + expand_rest(rest, env)
            } else {
                let e = varname_end(rest, 1);
                let name = rest.take(e);
                match lookup_var(env, name) {
                    Some(value) => prefix + value + expand_rest(rest.skip(e), env),
                    None => prefix + seq!['$'] + name + expand_rest(rest.skip(e), env),
                }
            }
        },
    }
}

#[via_fn]
proof fn expand_rest_decreases(rem: Seq<char>, env: Seq<(Seq<char>, Seq<char>)>) {
    lemma_find_char_some_bounds(rem, '$', 0);
    match find_char_from(rem, '$', 0) {
        None => {},
        Some(d) => {
            let rest = rem.skip(d + 1);
            if rest.len() >= 1 {
                lemma_varname_end_bounds(rest, 1);
            }
        },
    }
}

/// Whether a sequence contains a character.
pub open spec fn contains_char(s: Seq<char>, c: char) -> bool {
    exists|i: int| 0 <= i < s.len() && s[i] == c
}

/// The whole expansion: a bare `~` is the home directory; a path without
/// `$` or `~`, or of at most one character, is kept as it is; a leading
/// `~/` becomes the home directory, and the rest, like any other path, is
/// expanded reference by reference.
pub open spec fn spec_expand_path(s: Seq<char>, home: Seq<char>, env: Seq<(Seq<char>, Seq<char>)>) -> Seq<
    char,
> {
    if s == "~"@ {
        home
    } else if (!contains_char(s, '$') && !contains_char(s, '~')) || s.len() <= 1 {
        s
    } else if s.len() >= 2 && s[0] == '~' && s[1] == '/' {
        home + expand_rest(s.skip(1), env)
    } else {
        expand_rest(s, env)
    }
}

/// Expands `~` and `$VARIABLE` references in a path, with the environment
/// given as name-value pairs, as [`spec_expand_path`] reads it.
pub fn expand_path(path: &str, home: &str, env: &Vec<(String, String)>) -> (r: String)
    ensures
        r@ == spec_expand_path(path@, home@, pairs_view(env@)),
{
    let ghost ev = pairs_view(env@);
    if eq_str(path, "~") {
        return home.to_owned();
    }
    let n = path.unicode_len();
    let has_dollar = find_char(path, '$');
    let has_tilde = find_char(path, '~');
    proof {
        lemma_find_char_contains(path@, '$');
        lemma_find_char_contains(path@, '~');
    }
    if (has_dollar.is_none() && has_tilde.is_none()) || n <= 1 {
        return path.to_owned();
    }
    let mut out: String;
    let mut rem: &str;
    if path.get_char(0) == '~' && path.get_char(1) == '/' {
        out = home.to_owned();
        rem = path.substring_char(1, n);
        proof {
            assert(path@.skip(1) =~= rem@);
        }
    } else {
        out = String::new();
        rem = path;
    }
    let ghost target = out@ + expand_rest(rem@, ev);
    proof {
        assert(target =~= spec_expand_path(path@, home@, ev));
    }
    loop
        invariant
            ev == pairs_view(env@),
            target == spec_expand_path(path@, home@, ev),
            target == out@ + expand_rest(rem@, ev),
        decreases rem@.len(),
    {
        let d = match find_char(rem, '$') {
            Some(d) => d,
            None => {
                out.append(rem);
                proof {
                    assert(out@ == target);
                }
                return out;
            },
        };
        let rn = rem.unicode_len();
        let prefix = rem.substring_char(0, d);
        let rest = rem.substring_char(d + 1, rn);
        proof {
            assert(prefix@ =~= rem@.take(d as int));
            assert(rest@ =~= rem@.skip(d + 1));
        }
        let rest_n = rn - d - 1;
        if rest_n <= 1 || !is_valid_varname_char(rest.get_char(0)) || ends_escaped(prefix) {
            out.append(prefix);
            push_char(&mut out, '$');
            proof {
                assert(target =~= out@ + expand_rest(rest@, ev));
            }
            rem = rest;
            continue;
        }
        let mut e: usize = 1;
        while e < rest_n && is_valid_varname_char(rest.get_char(e))
            invariant
                1 <= e <= rest_n,
                rest_n == rest@.len(),
                varname_end(rest@, 1) == varname_end(rest@, e as int),
            decreases rest_n - e,
        {
            e = e + 1;
        }
        proof {
            assert(varname_end(rest@, e as int) == e as int);
        }
        let name = rest.substring_char(0, e);
        proof {
            assert(name@ =~= rest@.take(e as int));
        }
        out.append(prefix);
        match env_get(env, name) {
            Some(value) => {
                out.append(value.as_str());
            },
            None => {
                push_char(&mut out, '$');
                out.append(name);
            },
        }
        let tail = rest.substring_char(e, rest_n);
        proof {
            assert(tail@ =~= rest@.skip(e as int));
            assert(target =~= out@ + expand_rest(tail@, ev));
        }
        rem = tail;
    }
}

proof fn lemma_find_char_contains(s: Seq<char>, c: char)
    ensures
        find_char_from(s, c, 0) is Some <==> contains_char(s, c),
{
    lemma_find_char_contains_from(s, c, 0);
}

proof fn lemma_find_char_contains_from(s: Seq<char>, c: char, i: int)
    requires
        0 <= i <= s.len(),
    ensures
        find_char_from(s, c, i) is Some <==> exists|j: int| i <= j < s.len() && s[j] == c,
    decreases s.len() - i,
{
    if i < s.len() {
        lemma_find_char_contains_from(s, c, i + 1);
    }
}

} // verus!
