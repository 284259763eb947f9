//! Dependency manifests: counting dependencies, choosing the ones whose
//! latest version can be looked up, and comparing versions.

use crate::code_quality::{chars_equal, sat};
use crate::text::{
    chars_of, contains, contains_chars, find, find_chars, first_word, first_word_chars, lines,
    split_lines, starts_with, starts_with_chars, string_of, strip_leading, strip_leading_chars,
    sub_chars, trim, trim_chars, views, trim_start, space_from, is_white_space, lemma_space_from,
};
use vstd::prelude::*;

verus! {

/// The `go.mod` line scan: inside a `require (` block or not, and the
/// dependencies counted so far.
pub open spec fn go_mod_step(st: (bool, nat), line: Seq<char>) -> (bool, nat) {
    let t = trim(line);
    if starts_with(t, "require ("@) || t == "require ("@ {
        (true, st.1)
    } else if st.0 && starts_with(t, ")"@) {
        (false, st.1)
    } else {
        let in_block: nat = if st.0 && t.len() > 0 && !starts_with(t, "//"@) {
            1
        } else {
            0
        };
        let single: nat = if !st.0 && starts_with(t, "require "@) && !contains(t, "("@) {
            1
        } else {
            0
        };
        (st.0, st.1 + in_block + single)
    }
}

/// The `go.mod` scan over the given lines.
pub open spec fn go_mod_scan(st: (bool, nat), ls: Seq<Seq<char>>) -> (bool, nat)
    decreases ls.len(),
{
    if ls.len() == 0 {
        st
    } else {
        go_mod_scan(go_mod_step(st, ls[0]), ls.drop_first())
    }
}

/// The number of dependencies a `go.mod` requires: the non-comment lines of
/// `require ( .. )` blocks and the single-line `require` statements.
pub open spec fn go_mod_dependencies(content: Seq<char>) -> nat {
    go_mod_scan((false, 0), lines(content)).1
}

/// The number of dependencies a `go.mod` requires, saturating at
/// `u64::MAX`.
pub fn count_go_mod_dependencies(content: &str) -> (n: u64)
    ensures
        n == (if go_mod_dependencies(content@) > u64::MAX {
            u64::MAX as nat
        } else {
            go_mod_dependencies(content@)
        }),
{
    let text = chars_of(content);
    let ls = split_lines(&text);
    let req_block = chars_of("require (");
    let close = chars_of(")");
    let comment = chars_of("//");
    let req = chars_of("require ");
    let open = chars_of("(");
    let mut in_block = false;
    let mut count: u64 = 0;
    let ghost mut exact: nat = 0;
    let mut i: usize = 0;
    assert(views(ls@).skip(0) =~= views(ls@));
    while i < ls.len()
        invariant
            i <= ls.len(),
            views(ls@) == lines(content@),
            req_block@ == "require ("@,
            close@ == ")"@,
            comment@ == "//"@,
            req@ == "require "@,
            open@ == "("@,
            go_mod_scan((false, 0), lines(content@)) == go_mod_scan(
                (in_block, exact),
                views(ls@).skip(i as int),
            ),
            count == (if exact > u64::MAX {
                u64::MAX as nat
            } else {
                exact
            }),
        decreases ls.len() - i,
    {
        assert(views(ls@).skip(i as int).drop_first() =~= views(ls@).skip(i + 1));
        assert(views(ls@).skip(i as int)[0] == ls@[i as int]@);
        let t = trim_chars(&ls[i]);
        if starts_with_chars(&t, &req_block) || chars_equal(&t, &req_block) {
            in_block = true;
        } else if in_block && starts_with_chars(&t, &close) {
            in_block = false;
        } else {
            if in_block && t.len() > 0 && !starts_with_chars(&t, &comment) {
                count = count.saturating_add(1);
                proof {
                    exact = exact + 1;
                }
            }
            if !in_block && starts_with_chars(&t, &req) && !contains_chars(&t, &open) {
                count = count.saturating_add(1);
                proof {
                    exact = exact + 1;
                }
            }
        }
        i += 1;
    }
    assert(views(ls@).skip(i as int) =~= Seq::<Seq<char>>::empty());
    count
}

/// The requirement lines of a `requirements.txt`: trimmed, neither empty
/// nor comments.
pub open spec fn requirement_lines(ls: Seq<Seq<char>>) -> Seq<Seq<char>>
    decreases ls.len(),
{
    if ls.len() == 0 {
        seq![]
    } else {
        let t = trim(ls[0]);
        let rest = requirement_lines(ls.drop_first());
        if t.len() > 0 && !starts_with(t, "#"@) {
            seq![t] + rest
        } else {
            rest
        }
    }
}

/// The requirement lines of a `requirements.txt`.
pub fn requirements(content: &str) -> (r: Vec<String>)
    ensures
        r@.map_values(|s: String| s@) == requirement_lines(lines(content@)),
{
    let text = chars_of(content);
    let ls = split_lines(&text);
    let hash = chars_of("#");
    let mut r: Vec<String> = Vec::new();
    let mut i: usize = 0;
    assert(views(ls@).skip(0) =~= views(ls@));
    while i < ls.len()
        invariant
            i <= ls.len(),
            views(ls@) == lines(content@),
            hash@ == "#"@,
            requirement_lines(lines(content@)) == r@.map_values(|s: String| s@)
                + requirement_lines(views(ls@).skip(i as int)),
        decreases ls.len() - i,
    {
        assert(views(ls@).skip(i as int).drop_first() =~= views(ls@).skip(i + 1));
        assert(views(ls@).skip(i as int)[0] == ls@[i as int]@);
        let t = trim_chars(&ls[i]);
        if t.len() > 0 && !starts_with_chars(&t, &hash) {
            let ghost before = r@.map_values(|s: String| s@);
            r.push(string_of(&t));
            assert(r@.map_values(|s: String| s@) =~= before.push(t@));
            assert(before.push(t@) + requirement_lines(views(ls@).skip(i + 1)) =~= before + (seq![
                t@,
            ] + requirement_lines(views(ls@).skip(i + 1))));
        }
        i += 1;
    }
    assert(views(ls@).skip(i as int) =~= Seq::<Seq<char>>::empty());
    assert(r@.map_values(|s: String| s@) + Seq::<Seq<char>>::empty() =~= r@.map_values(
        |s: String| s@,
    ));
    r
}

/// The version comparison operators of a pip requirement, in the order
/// they are tried.
pub open spec fn pip_operator(k: int) -> Seq<char> {
    if k == 0 {
        "=="@
    } else if k == 1 {
        ">="@
    } else if k == 2 {
        "<="@
    } else if k == 3 {
        "~="@
    } else if k == 4 {
        "!="@
    } else if k == 5 {
        ">"@
    } else {
        "<"@
    }
}

/// The text before the first comma.
pub open spec fn before_comma(s: Seq<char>) -> Seq<char> {
    match find(s, ","@) {
        Some(i) => s.take(i),
        None => s,
    }
}

/// Name and version of a requirement split at the first operator (tried in
/// order) that occurs in it; the version stops at a comma; both must be
/// non-empty.
pub open spec fn pip_split(r: Seq<char>, k: int) -> Option<(Seq<char>, Seq<char>)>
    decreases 7 - k,
{
    if k < 0 || k >= 7 {
        None
    } else {
        match find(r, pip_operator(k)) {
            Some(idx) => {
                let name = trim(r.take(idx));
                let version = trim(before_comma(trim(r.skip(idx + pip_operator(k).len()))));
                if name.len() > 0 && version.len() > 0 {
                    Some((name, version))
                } else {
                    None
                }
            },
            None => pip_split(r, k + 1),
        }
    }
}

/// Name and pinned version of a pip requirement line, or `None` for
/// comments, options and lines without a version.
pub open spec fn pip_requirement(req: Seq<char>) -> Option<(Seq<char>, Seq<char>)> {
    let r = trim(req);
    if starts_with(r, "#"@) || starts_with(r, "-"@) {
        None
    } else {
        pip_split(r, 0)
    }
}

fn pip_operator_chars(k: usize) -> (p: Vec<char>)
    requires
        k < 7,
    ensures
        p@ == pip_operator(k as int),
{
    if k == 0 {
        chars_of("==")
    } else if k == 1 {
        chars_of(">=")
    } else if k == 2 {
        chars_of("<=")
    } else if k == 3 {
        chars_of("~=")
    } else if k == 4 {
        chars_of("!=")
    } else if k == 5 {
        chars_of(">")
    } else {
        chars_of("<")
    }
}

/// Name and pinned version of a pip requirement line.
pub fn parse_pip_requirement(req: &str) -> (r: Option<(String, String)>)
    ensures
        r is None <==> pip_requirement(req@) is None,
        r matches Some(p) ==> pip_requirement(req@) == Some((p.0@, p.1@)),
{
    let r = trim_chars(&chars_of(req));
    if starts_with_chars(&r, &chars_of("#")) || starts_with_chars(&r, &chars_of("-")) {
        return None;
    }
    let comma = chars_of(",");
    let mut k: usize = 0;
    while k < 7
        invariant
            k <= 7,
            comma@ == ","@,
            r@ == trim(req@),
            !starts_with(r@, "#"@) && !starts_with(r@, "-"@),
            pip_split(r@, 0) == pip_split(r@, k as int),
        decreases 7 - k,
    {
        let op = pip_operator_chars(k);
        match find_chars(&r, &op) {
            Some(idx) => {
                let name = trim_chars(&sub_chars(&r, 0, idx));
                let vp = trim_chars(&sub_chars(&r, idx + op.len(), r.len()));
                assert(vp@ == trim(r@.skip(idx + pip_operator(k as int).len()))) by {
                    assert(r@.subrange(idx + op.len(), r.len() as int) =~= r@.skip(
                        idx + op.len(),
                    ));
                }
                assert(r@.subrange(0, idx as int) =~= r@.take(idx as int));
                let first = match find_chars(&vp, &comma) {
                    Some(c) => {
                        assert(vp@.subrange(0, c as int) =~= vp@.take(c as int));
                        sub_chars(&vp, 0, c)
                    },
                    None => sub_chars(&vp, 0, vp.len()),
                };
                assert(vp@.subrange(0, vp.len() as int) =~= vp@);
                let version = trim_chars(&first);
                if name.len() > 0 && version.len() > 0 {
                    return Some((string_of(&name), string_of(&version)));
                }
                return None;
            },
            None => {},
        }
        k += 1;
    }
    None
}

/// The pip requirements whose latest version can be looked up, with their
/// pinned versions, in order.
pub open spec fn pip_checkable(reqs: Seq<Seq<char>>) -> Seq<(Seq<char>, Seq<char>)>
    decreases reqs.len(),
{
    if reqs.len() == 0 {
        seq![]
    } else {
        let rest = pip_checkable(reqs.drop_first());
        match pip_requirement(reqs[0]) {
            Some(p) => seq![p] + rest,
            None => rest,
        }
    }
}

/// The views of a list of name and version pairs.
pub open spec fn pairs(v: Seq<(String, String)>) -> Seq<(Seq<char>, Seq<char>)> {
    v.map_values(|p: (String, String)| (p.0@, p.1@))
}

/// The pip requirements whose latest version can be looked up.
pub fn pip_checkable_requirements(reqs: &Vec<String>) -> (r: Vec<(String, String)>)
    ensures
        pairs(r@) == pip_checkable(reqs@.map_values(|s: String| s@)),
{
    let ghost vs = reqs@.map_values(|s: String| s@);
    let mut r: Vec<(String, String)> = Vec::new();
    let mut i: usize = 0;
    assert(vs.skip(0) =~= vs);
    while i < reqs.len()
        invariant
            i <= reqs.len(),
            vs == reqs@.map_values(|s: String| s@),
            pip_checkable(vs) == pairs(r@) + pip_checkable(vs.skip(i as int)),
        decreases reqs.len() - i,
    {
        assert(vs.skip(i as int).drop_first() =~= vs.skip(i + 1));
        assert(vs.skip(i as int)[0] == reqs@[i as int]@);
        match parse_pip_requirement(reqs[i].as_str()) {
            Some(p) => {
                let ghost before = pairs(r@);
                let ghost pv = (p.0@, p.1@);
                r.push(p);
                assert(pairs(r@) =~= before.push(pv));
                assert(before.push(pv) + pip_checkable(vs.skip(i + 1)) =~= before + (seq![pv]
                    + pip_checkable(vs.skip(i + 1))));
            },
            None => {},
        }
        i += 1;
    }
    assert(vs.skip(i as int) =~= Seq::<Seq<char>>::empty());
    assert(pairs(r@) + Seq::<(Seq<char>, Seq<char>)>::empty() =~= pairs(r@));
    r
}

/// An npm version specification names a registry version (not a tag, a
/// wildcard, a URL, a git, file or hosted reference).
pub open spec fn npm_checkable_version(v: Seq<char>) -> bool {
    !(v.len() == 0 || v == "latest"@ || v == "*"@ || starts_with(v, "http://"@) || starts_with(
        v,
        "https://"@,
    ) || starts_with(v, "git+"@) || starts_with(v, "file:"@) || starts_with(v, "github:"@)
        || starts_with(v, "gitlab:"@) || starts_with(v, "bitbucket:"@))
}

/// Whether an npm version specification names a registry version.
pub fn npm_version_checkable(v: &str) -> (b: bool)
    ensures
        b == npm_checkable_version(v@),
{
    let c = chars_of(v);
    !(c.len() == 0 || chars_equal(&c, &chars_of("latest")) || chars_equal(&c, &chars_of("*"))
        || starts_with_chars(&c, &chars_of("http://")) || starts_with_chars(
        &c,
        &chars_of("https://"),
    ) || starts_with_chars(&c, &chars_of("git+")) || starts_with_chars(&c, &chars_of("file:"))
        || starts_with_chars(&c, &chars_of("github:")) || starts_with_chars(
        &c,
        &chars_of("gitlab:"),
    ) || starts_with_chars(&c, &chars_of("bitbucket:")))
}

/// npm dependencies whose latest version can be looked up: those whose
/// specification is a string naming a registry version.
pub open spec fn npm_checkable(deps: Seq<(Seq<char>, Option<Seq<char>>)>) -> Seq<(Seq<char>, Seq<char>)>
    decreases deps.len(),
{
    if deps.len() == 0 {
        seq![]
    } else {
        let rest = npm_checkable(deps.drop_first());
        match deps[0].1 {
            Some(v) => if npm_checkable_version(v) {
                seq![(deps[0].0, v)] + rest
            } else {
                rest
            },
            None => rest,
        }
    }
}

/// The views of a list of dependencies with optional string versions.
pub open spec fn named_versions(v: Seq<(String, Option<String>)>) -> Seq<(Seq<char>, Option<Seq<char>>)> {
    v.map_values(
        |p: (String, Option<String>)|
            (
                p.0@,
                match p.1 {
                    Some(s) => Some(s@),
                    None => None,
                },
            ),
    )
}

/// The npm dependencies whose latest version can be looked up; a
/// dependency's version is `None` when it is not a JSON string.
pub fn npm_checkable_dependencies(deps: &Vec<(String, Option<String>)>) -> (r: Vec<(String, String)>)
    ensures
        pairs(r@) == npm_checkable(named_versions(deps@)),
{
    let ghost vs = named_versions(deps@);
    let mut r: Vec<(String, String)> = Vec::new();
    let mut i: usize = 0;
    assert(vs.skip(0) =~= vs);
    while i < deps.len()
        invariant
            i <= deps.len(),
            vs == named_versions(deps@),
            npm_checkable(vs) == pairs(r@) + npm_checkable(vs.skip(i as int)),
        decreases deps.len() - i,
    {
        assert(vs.skip(i as int).drop_first() =~= vs.skip(i + 1));
        assert(vs.skip(i as int)[0] == vs[i as int]);
        match &deps[i].1 {
            Some(v) => {
                if npm_version_checkable(v.as_str()) {
                    let ghost before = pairs(r@);
                    let ghost pv = (deps@[i as int].0@, v@);
                    r.push((deps[i].0.clone(), v.clone()));
                    assert(pairs(r@) =~= before.push(pv));
                    assert(before.push(pv) + npm_checkable(vs.skip(i + 1)) =~= before + (seq![pv]
                        + npm_checkable(vs.skip(i + 1))));
                }
            },
            None => {},
        }
        i += 1;
    }
    assert(vs.skip(i as int) =~= Seq::<(Seq<char>, Option<Seq<char>>)>::empty());
    assert(pairs(r@) + Seq::<(Seq<char>, Seq<char>)>::empty() =~= pairs(r@));
    r
}

/// Cargo dependencies whose latest version can be looked up (those given a
/// version, by a string or a table's `version` entry), with their
/// versions, in order.
pub open spec fn cargo_checkable(deps: Seq<(Seq<char>, Option<Seq<char>>)>) -> Seq<(Seq<char>, Seq<char>)>
    decreases deps.len(),
{
    if deps.len() == 0 {
        seq![]
    } else {
        let rest = cargo_checkable(deps.drop_first());
        match deps[0].1 {
            Some(v) => seq![(deps[0].0, v)] + rest,
            None => rest,
        }
    }
}

/// The Cargo dependencies whose latest version can be looked up: those
/// with a version (path and git dependencies have none).
pub fn cargo_checkable_dependencies(deps: &Vec<(String, Option<String>)>) -> (r: Vec<(String, String)>)
    ensures
        pairs(r@) == cargo_checkable(named_versions(deps@)),
{
    let ghost vs = named_versions(deps@);
    let mut r: Vec<(String, String)> = Vec::new();
    let mut i: usize = 0;
    assert(vs.skip(0) =~= vs);
    while i < deps.len()
        invariant
            i <= deps.len(),
            vs == named_versions(deps@),
            cargo_checkable(vs) == pairs(r@) + cargo_checkable(vs.skip(i as int)),
        decreases deps.len() - i,
    {
        assert(vs.skip(i as int).drop_first() =~= vs.skip(i + 1));
        assert(vs.skip(i as int)[0] == vs[i as int]);
        match &deps[i].1 {
            Some(v) => {
                let ghost before = pairs(r@);
                let ghost pv = (deps@[i as int].0@, v@);
                r.push((deps[i].0.clone(), v.clone()));
                assert(pairs(r@) =~= before.push(pv));
                assert(before.push(pv) + cargo_checkable(vs.skip(i + 1)) =~= before + (seq![pv]
                    + cargo_checkable(vs.skip(i + 1))));
            },
            None => {},
        }
        i += 1;
    }
    assert(vs.skip(i as int) =~= Seq::<(Seq<char>, Option<Seq<char>>)>::empty());
    assert(pairs(r@) + Seq::<(Seq<char>, Seq<char>)>::empty() =~= pairs(r@));
    r
}

/// The `semver` crate's version type.
#[verifier::external_type_specification]
#[verifier::external_body]
pub struct ExVersion(semver::Version);

/// Named result of `semver::Version::parse`: whether a text is a semantic
/// version.
pub uninterp spec fn semver_parses(text: Seq<char>) -> bool;

/// Named result of `<` on `semver::Version`: whether the version `a`
/// parses to precedes the one `b` parses to.
pub uninterp spec fn semver_less(a: Seq<char>, b: Seq<char>) -> bool;

/// Whether a text begins with an ASCII digit.
pub open spec fn starts_with_digit(s: Seq<char>) -> bool {
    s.len() > 0 && '0' <= s[0] <= '9'
}

/// Calls `semver::Version::parse` on both texts and, when both parse,
/// compares them with `<` (semantic version precedence). The contract
/// names both results, and states two facts of them: a text that parses
/// begins with a digit (the major version); and when one version precedes
/// another, the other does not precede it (precedence is a total order).
#[verifier::external_body]
fn compare_versions(current: &str, latest: &str) -> (r: Option<bool>)
    ensures
        r is Some <==> (semver_parses(current@) && semver_parses(latest@)),
        r matches Some(b) ==> b == semver_less(current@, latest@),
        r is Some ==> starts_with_digit(current@) && starts_with_digit(latest@),
        r == Some(true) ==> !semver_less(latest@, current@),
{
    match (semver::Version::parse(current), semver::Version::parse(latest)) {
        (Ok(a), Ok(b)) => Some(a < b),
        _ => None,
    }
}

/// The current version with its range operators and a `v` prefix removed,
/// cut at white space.
pub open spec fn clean_current(current: Seq<char>) -> Seq<char> {
    match first_word(strip_leading(current, "<>=^~v"@)) {
        Some(w) => w,
        None => current,
    }
}

/// The latest version with a `v` prefix removed, cut at white space.
pub open spec fn clean_latest(latest: Seq<char>) -> Seq<char> {
    match first_word(strip_leading(latest, "v"@)) {
        Some(w) => w,
        None => latest,
    }
}

/// A dependency is outdated when both cleaned versions parse and the
/// current one precedes the latest one; otherwise it is not taken for
/// outdated. Two more conjuncts spell out what semantic versioning gives
/// whenever those hold: each parsed text begins with the digit of its
/// major version, and the latest version does not precede the current one.
pub open spec fn outdated(current: Seq<char>, latest: Seq<char>) -> bool {
    let c = clean_current(current);
    let l = clean_latest(latest);
    &&& semver_parses(c) && semver_parses(l) && semver_less(c, l)
    &&& starts_with_digit(c) && starts_with_digit(l)
    &&& !semver_less(l, c)
}

/// Stripping a `v` prefix stops where stripping range operators and a `v`
/// prefix stops, unless it stops at a range operator.
proof fn lemma_strip_prefixes(a: Seq<char>)
    ensures
        strip_leading(a, "v"@) == strip_leading(a, "<>=^~v"@) || (strip_leading(a, "v"@).len() > 0
            && "<>=^~"@.contains(strip_leading(a, "v"@)[0])),
    decreases a.len(),
{
    reveal_strlit("v");
    reveal_strlit("<>=^~v");
    reveal_strlit("<>=^~");
    if a.len() > 0 {
        if a[0] == 'v' {
            assert("v"@[0] == 'v');
            assert("<>=^~v"@[5] == 'v');
            lemma_strip_prefixes(a.drop_first());
        } else if "<>=^~"@.contains(a[0]) {
            assert(!"v"@.contains(a[0]));
        } else {
            assert(!"v"@.contains(a[0]));
            assert(!"<>=^~v"@.contains(a[0])) by {
                assert("<>=^~v"@ =~= seq!['<', '>', '=', '^', '~', 'v']);
                assert("<>=^~"@ =~= seq!['<', '>', '=', '^', '~']);
                if "<>=^~v"@.contains(a[0]) {
                    let i = choose|i: int| 0 <= i < 6 && "<>=^~v"@[i] == a[0];
                    if i < 5 {
                        assert("<>=^~"@[i] == a[0]);
                    }
                }
            }
        }
    }
}

/// A latest version that begins with a digit once cleaned is cleaned as a
/// current version to the same text.
proof fn lemma_clean_agrees(a: Seq<char>)
    requires
        starts_with_digit(clean_latest(a)),
    ensures
        clean_current(a) == clean_latest(a),
{
    reveal_strlit("<>=^~");
    lemma_strip_prefixes(a);
    let sv = strip_leading(a, "v"@);
    if sv != strip_leading(a, "<>=^~v"@) {
        let c = sv[0];
        assert(c == '<' || c == '>' || c == '=' || c == '^' || c == '~');
        assert(!is_white_space(c));
        assert(trim_start(sv) == sv);
        lemma_space_from(sv, 1);
        assert(space_from(sv, 0) >= 1);
        assert(first_word(sv) == Some(sv.take(space_from(sv, 0))));
        assert(clean_latest(a)[0] == c);
    }
}

/// Whether the current version of a dependency precedes the latest one.
pub fn is_outdated(current: &str, latest: &str) -> (b: bool)
    ensures
        b == outdated(current@, latest@),
{
    let c = chars_of(current);
    let cc = match first_word_chars(&strip_leading_chars(&c, &chars_of("<>=^~v"))) {
        Some(w) => w,
        None => c,
    };
    let l = chars_of(latest);
    let cl = match first_word_chars(&strip_leading_chars(&l, &chars_of("v"))) {
        Some(w) => w,
        None => l,
    };
    let cs = string_of(&cc);
    let ls = string_of(&cl);
    match compare_versions(cs.as_str(), ls.as_str()) {
        Some(b) => b,
        None => false,
    }
}

/// A version is never outdated against itself.
pub proof fn law_outdated_irreflexive(v: Seq<char>)
    ensures
        !outdated(v, v),
{
    if outdated(v, v) {
        lemma_clean_agrees(v);
    }
}

/// Of two versions, at most one is outdated against the other.
pub proof fn law_outdated_one_way(a: Seq<char>, b: Seq<char>)
    ensures
        !(outdated(a, b) && outdated(b, a)),
{
    if outdated(a, b) && outdated(b, a) {
        lemma_clean_agrees(a);
        lemma_clean_agrees(b);
    }
}

/// The latest versions a registry gave, `None` where a lookup failed.
pub open spec fn latest_views(answers: Seq<Option<String>>) -> Seq<Option<Seq<char>>> {
    answers.map_values(
        |a: Option<String>|
            match a {
                Some(l) => Some(l@),
                None => None,
            },
    )
}

/// Whether the answer at index `i` is a latest version that `current`
/// precedes.
pub open spec fn answered_newer(current: Seq<char>, answers: Seq<Option<Seq<char>>>, i: int) -> bool {
    &&& 0 <= i < answers.len()
    &&& answers[i] matches Some(l) && outdated(current, l)
}

/// The number of `(name, version)` dependencies that the registry's
/// answers, given in the same order, show to be outdated: those whose
/// answer is a latest version that the version given precedes. A
/// dependency without an answer is not counted.
pub open spec fn answered_outdated(vs: Seq<(Seq<char>, Seq<char>)>, answers: Seq<Option<Seq<char>>>) -> nat
    decreases vs.len(),
{
    if vs.len() == 0 {
        0
    } else {
        let i = vs.len() - 1;
        answered_outdated(vs.drop_last(), answers) + if answered_newer(vs[i].1, answers, i) {
            1nat
        } else {
            0
        }
    }
}

/// Counts the dependencies `(name, version)` that the registry's answers,
/// in the same order, show to be outdated; never more than there are
/// dependencies.
pub fn count_answered_outdated(versions: &Vec<(String, String)>, answers: &Vec<Option<String>>) -> (n: u64)
    ensures
        n == answered_outdated(pairs(versions@), latest_views(answers@)),
        n <= versions@.len(),
{
    let ghost ps = pairs(versions@);
    let ghost ls = latest_views(answers@);
    let mut n: u64 = 0;
    let mut i: usize = 0;
    while i < versions.len()
        invariant
            i <= versions.len(),
            ps == pairs(versions@),
            ls == latest_views(answers@),
            n == answered_outdated(ps.take(i as int), ls),
            n <= i,
        decreases versions.len() - i,
    {
        assert(ps.take(i + 1).drop_last() =~= ps.take(i as int));
        assert(ps.take(i + 1)[i as int] == ps[i as int]);
        if i < answers.len() {
            match &answers[i] {
                Some(latest) => {
                    if is_outdated(versions[i].1.as_str(), latest.as_str()) {
                        n += 1;
                    }
                },
                None => {},
            }
        }
        i += 1;
    }
    assert(ps.take(versions.len() as int) =~= ps);
    n
}

} // verus!
