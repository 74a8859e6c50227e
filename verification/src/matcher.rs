//! Pattern matching of tool names against hook matchers: exact comparison
//! ignoring ASCII case, the `"*"` match-everything pattern, and glob patterns
//! where `*` matches any run of characters and `?` matches exactly one.

use vstd::prelude::*;

use crate::strutil::char_eq_ci;
use crate::strutil::char_eq_ci_exec;
use crate::strutil::chars_eq_ci;
use crate::strutil::chars_vec;
use crate::strutil::seq_eq_ci;

verus! {

/// Case-insensitive glob matching: `*` matches any run of characters,
/// including the empty one, `?` matches exactly one character, and any other
/// pattern character matches one equal character up to ASCII case.
pub open spec fn glob_match(p: Seq<char>, n: Seq<char>) -> bool
    decreases p.len(), n.len(),
{
    if p.len() == 0 {
        n.len() == 0
    } else if p[0] == '*' {
        glob_match(p.skip(1), n) || (n.len() > 0 && glob_match(p, n.skip(1)))
    } else if n.len() == 0 {
        false
    } else {
        (p[0] == '?' || char_eq_ci(p[0], n[0])) && glob_match(p.skip(1), n.skip(1))
    }
}

/// Whether the pattern holds a glob metacharacter.
pub open spec fn has_glob_char(p: Seq<char>) -> bool {
    exists|i: int| 0 <= i < p.len() && (p[i] == '*' || p[i] == '?')
}

/// What it means for a tool name to match a hook's matcher pattern: the
/// pattern `"*"` matches every name; a pattern with glob metacharacters
/// matches as a case-insensitive glob; any other pattern matches exactly,
/// ignoring ASCII case.
pub open spec fn spec_matches(p: Seq<char>, n: Seq<char>) -> bool {
    if p.len() == 1 && p[0] == '*' {
        true
    } else if has_glob_char(p) {
        glob_match(p, n)
    } else {
        seq_eq_ci(p, n)
    }
}

fn glob_match_at(p: &Vec<char>, n: &Vec<char>, i: usize, j: usize) -> (r: bool)
    requires
        i <= p@.len(),
        j <= n@.len(),
    ensures
        r == glob_match(p@.skip(i as int), n@.skip(j as int)),
    decreases p@.len() - i, n@.len() - j,
{
    let ghost ps = p@.skip(i as int);
    let ghost ns = n@.skip(j as int);
    if i == p.len() {
        j == n.len()
    } else if p[i] == '*' {
        assert(ps[0] == p@[i as int]);
        assert(ps.skip(1) =~= p@.skip(i + 1 as int));
        if glob_match_at(p, n, i + 1, j) {
            true
        } else if j < n.len() {
            assert(ns.skip(1) =~= n@.skip(j + 1 as int));
            glob_match_at(p, n, i, j + 1)
        } else {
            false
        }
    } else if j == n.len() {
        assert(ps[0] == p@[i as int]);
        false
    } else {
        assert(ps[0] == p@[i as int]);
        assert(ns[0] == n@[j as int]);
        assert(ps.skip(1) =~= p@.skip(i + 1 as int));
        assert(ns.skip(1) =~= n@.skip(j + 1 as int));
        (p[i] == '?' || char_eq_ci_exec(p[i], n[j])) && glob_match_at(p, n, i + 1, j + 1)
    }
}

fn find_glob_char(p: &Vec<char>) -> (r: bool)
    ensures
        r == has_glob_char(p@),
{
    let mut i: usize = 0;
    while i < p.len()
        invariant
            i <= p@.len(),
            forall|j: int| 0 <= j < i ==> !(p@[j] == '*' || p@[j] == '?'),
        decreases p@.len() - i,
    {
        if p[i] == '*' || p[i] == '?' {
            return true;
        }
        i = i + 1;
    }
    false
}

/// Match a tool name against a hook's matcher pattern, per `spec_matches`.
pub fn matches_tool(pattern: &str, tool_name: &str) -> (r: bool)
    ensures
        r == spec_matches(pattern@, tool_name@),
{
    let p = chars_vec(pattern);
    let n = chars_vec(tool_name);
    if p.len() == 1 && p[0] == '*' {
        return true;
    }
    if find_glob_char(&p) {
        assert(p@.skip(0) =~= pattern@);
        assert(n@.skip(0) =~= tool_name@);
        glob_match_at(&p, &n, 0, 0)
    } else {
        chars_eq_ci(&p, &n)
    }
}

/// The pattern `"*"` matches every tool name.
pub proof fn lemma_star_matches_all(p: Seq<char>, n: Seq<char>)
    requires
        p.len() == 1 && p[0] == '*',
    ensures
        spec_matches(p, n),
{
}

/// A pattern without glob metacharacters matches exactly the names equal to
/// it up to ASCII case.
pub proof fn lemma_exact_match_ignoring_case(p: Seq<char>, n: Seq<char>)
    requires
        !has_glob_char(p),
    ensures
        spec_matches(p, n) == seq_eq_ci(p, n),
{
}

} // verus!
