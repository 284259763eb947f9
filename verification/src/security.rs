//! Security practices: secret detection, CVE references and the security
//! score.

use crate::pattern::{compile_pattern, count_matches, has_match, regex_compiles, regex_match_count};
use crate::ratio::Ratio;
use vstd::prelude::*;

verus! {

/// API keys assigned a long literal.
pub open spec fn api_key_re() -> Seq<char> {
    "(?i)(api[_-]?key|apikey)\\s*[:=]\\s*['\"][a-zA-Z0-9_-]{20,}['\"]"@
}

/// AWS credential assignments.
pub open spec fn aws_key_re() -> Seq<char> {
    "(?i)(aws_access_key_id|aws_secret_access_key)\\s*[:=]"@
}

/// Private key blocks.
pub open spec fn private_key_re() -> Seq<char> {
    "-----BEGIN (RSA |EC |OPENSSH )?PRIVATE KEY-----"@
}

/// Passwords assigned a literal.
pub open spec fn password_re() -> Seq<char> {
    "(?i)(password|passwd|pwd)\\s*[:=]\\s*['\"][^'\"]{8,}['\"]"@
}

/// Tokens and secrets assigned a long literal.
pub open spec fn token_re() -> Seq<char> {
    "(?i)(token|secret|auth)\\s*[:=]\\s*['\"][a-zA-Z0-9_-]{20,}['\"]"@
}

/// CVE identifiers.
pub open spec fn cve_re() -> Seq<char> {
    "CVE-\\d{4}-\\d{4,}"@
}

/// All secret patterns compile.
pub open spec fn secret_patterns_compile() -> bool {
    regex_compiles(api_key_re()) && regex_compiles(aws_key_re()) && regex_compiles(
        private_key_re(),
    ) && regex_compiles(password_re()) && regex_compiles(token_re())
}

/// A text looks like it holds a secret.
pub open spec fn holds_secret(text: Seq<char>) -> bool {
    ||| regex_match_count(api_key_re(), text) > 0
    ||| regex_match_count(aws_key_re(), text) > 0
    ||| regex_match_count(private_key_re(), text) > 0
    ||| regex_match_count(password_re(), text) > 0
    ||| regex_match_count(token_re(), text) > 0
}

/// The compiled secret patterns.
pub struct SecretPatterns {
    api_key: crate::pattern::Pattern,
    aws_key: crate::pattern::Pattern,
    private_key: crate::pattern::Pattern,
    password: crate::pattern::Pattern,
    token: crate::pattern::Pattern,
}

impl SecretPatterns {
    /// Each pattern was compiled from its source.
    pub closed spec fn wf(&self) -> bool {
        &&& self.api_key.source() == api_key_re()
        &&& self.aws_key.source() == aws_key_re()
        &&& self.private_key.source() == private_key_re()
        &&& self.password.source() == password_re()
        &&& self.token.source() == token_re()
    }

    /// The compiled patterns, or `None` when one does not compile (secret
    /// detection then reports no secret).
    pub fn new() -> (r: Option<SecretPatterns>)
        ensures
            r is Some <==> secret_patterns_compile(),
            r matches Some(p) ==> p.wf(),
    {
        let a = compile_pattern(
            "(?i)(api[_-]?key|apikey)\\s*[:=]\\s*['\"][a-zA-Z0-9_-]{20,}['\"]",
        );
        let b = compile_pattern("(?i)(aws_access_key_id|aws_secret_access_key)\\s*[:=]");
        let c = compile_pattern("-----BEGIN (RSA |EC |OPENSSH )?PRIVATE KEY-----");
        let d = compile_pattern("(?i)(password|passwd|pwd)\\s*[:=]\\s*['\"][^'\"]{8,}['\"]");
        let e = compile_pattern("(?i)(token|secret|auth)\\s*[:=]\\s*['\"][a-zA-Z0-9_-]{20,}['\"]");
        match (a, b, c, d, e) {
            (Some(a), Some(b), Some(c), Some(d), Some(e)) => Some(
                SecretPatterns { api_key: a, aws_key: b, private_key: c, password: d, token: e },
            ),
            _ => None,
        }
    }

    /// Whether a file's text looks like it holds a secret.
    pub fn content_has_secret(&self, text: &str) -> (b: bool)
        requires
            self.wf(),
        ensures
            b == holds_secret(text@),
    {
        has_match(&self.api_key, text) || has_match(&self.aws_key, text) || has_match(
            &self.private_key,
            text,
        ) || has_match(&self.password, text) || has_match(&self.token, text)
    }
}

/// Whether any of the texts looks like it holds a secret (files scanned in
/// order; the first hit decides). No secret is reported when a pattern does
/// not compile.
pub fn detect_secrets(texts: &Vec<String>) -> (b: bool)
    ensures
        b == (secret_patterns_compile() && exists|k: int|
            0 <= k < texts@.len() && holds_secret(#[trigger] texts@[k]@)),
{
    let p = match SecretPatterns::new() {
        Some(p) => p,
        None => return false,
    };
    let mut i: usize = 0;
    while i < texts.len()
        invariant
            p.wf(),
            secret_patterns_compile(),
            i <= texts.len(),
            forall|k: int| 0 <= k < i ==> !holds_secret(#[trigger] texts@[k]@),
        decreases texts.len() - i,
    {
        if p.content_has_secret(texts[i].as_str()) {
            return true;
        }
        i += 1;
    }
    false
}

/// The CVE identifiers mentioned in the given texts.
pub open spec fn cve_total(texts: Seq<Seq<char>>) -> nat
    decreases texts.len(),
{
    if texts.len() == 0 {
        0
    } else {
        cve_total(texts.drop_last()) + regex_match_count(cve_re(), texts.last())
    }
}

/// The number of CVE identifiers in the given texts, saturating at
/// `u32::MAX`; zero when the pattern does not compile.
pub fn count_cve_references(texts: &Vec<String>) -> (n: u32)
    ensures
        !regex_compiles(cve_re()) ==> n == 0,
        regex_compiles(cve_re()) ==> n == (if cve_total(texts@.map_values(|s: String| s@))
            > u32::MAX {
            u32::MAX as nat
        } else {
            cve_total(texts@.map_values(|s: String| s@))
        }),
{
    let p = match compile_pattern("CVE-\\d{4}-\\d{4,}") {
        Some(p) => p,
        None => return 0,
    };
    let ghost views = texts@.map_values(|s: String| s@);
    let mut total: u64 = 0;
    let mut i: usize = 0;
    while i < texts.len()
        invariant
            i <= texts.len(),
            p.source() == cve_re(),
            views == texts@.map_values(|s: String| s@),
            total == (if cve_total(views.take(i as int)) > u32::MAX {
                u32::MAX as nat
            } else {
                cve_total(views.take(i as int))
            }),
        decreases texts.len() - i,
    {
        let c = count_matches(&p, texts[i].as_str()) as u64;
        assert(views.take(i + 1).drop_last() =~= views.take(i as int));
        assert(views.take(i + 1).last() == texts@[i as int]@);
        total = if c > u32::MAX as u64 || total + c > u32::MAX as u64 {
            u32::MAX as u64
        } else {
            total + c
        };
        i += 1;
    }
    assert(views.take(texts.len() as int) =~= views);
    total as u32
}

/// Security practices and vulnerability metrics.
#[derive(Clone, Debug)]
pub struct SecurityMetrics {
    pub security_policy: bool,
    pub vulnerability_disclosure: bool,
    pub dependency_scanning: bool,
    /// Something that looks like a secret was found.
    pub secrets_scanning: bool,
    /// Signed commits per commit among the latest ones.
    pub signed_commits_ratio: Ratio,
    /// Open Dependabot alerts.
    pub security_advisories: u32,
    pub cve_references: u32,
    pub license_compatibility: bool,
}

/// Which security files exist in the repository.
pub struct SecurityFiles {
    /// `SECURITY.md`
    pub security_md: bool,
    /// `.github/SECURITY.md`
    pub github_security_md: bool,
    /// `.github/dependabot.yml`
    pub dependabot_yml: bool,
    /// `.github/renovate.json`
    pub renovate_json: bool,
    /// `LICENSE`
    pub license: bool,
    /// `LICENSE.md`
    pub license_md: bool,
}

/// The security metrics from the files present, the scans, the share of
/// signed commits and the number of open alerts.
pub fn collect_security_metrics(
    files: &SecurityFiles,
    secrets_found: bool,
    cve_references: u32,
    signed_commits_ratio: Ratio,
    security_advisories: u32,
) -> (m: SecurityMetrics)
    ensures
        m.security_policy == files.security_md,
        m.vulnerability_disclosure == (files.security_md || files.github_security_md),
        m.dependency_scanning == (files.dependabot_yml || files.renovate_json),
        m.secrets_scanning == secrets_found,
        m.signed_commits_ratio == signed_commits_ratio,
        m.security_advisories == security_advisories,
        m.cve_references == cve_references,
        m.license_compatibility == (files.license || files.license_md),
{
    SecurityMetrics {
        security_policy: files.security_md,
        vulnerability_disclosure: files.security_md || files.github_security_md,
        dependency_scanning: files.dependabot_yml || files.renovate_json,
        secrets_scanning: secrets_found,
        signed_commits_ratio,
        security_advisories,
        cve_references,
        license_compatibility: files.license || files.license_md,
    }
}

/// The security score in thousandths, without the signed commits part:
/// security policy 150, disclosure process 100, dependency scanning 200,
/// no secret found 200, no advisory 100, no CVE reference 50 (or 25 for at
/// most two).
pub open spec fn security_base(m: SecurityMetrics) -> int {
    (if m.security_policy {
        150int
    } else {
        0
    }) + (if m.vulnerability_disclosure {
        100int
    } else {
        0
    }) + (if m.dependency_scanning {
        200int
    } else {
        0
    }) + (if !m.secrets_scanning {
        200int
    } else {
        0
    }) + (if m.security_advisories == 0 {
        100int
    } else {
        0
    }) + (if m.cve_references == 0 {
        50int
    } else if m.cve_references <= 2 {
        25int
    } else {
        0
    })
}

/// The security score: the base part plus a fifth of the signed commits
/// ratio, as `(base * d + 200 * n) / (1000 * d)` for a ratio `n / d`, held
/// at one.
pub open spec fn security_score(m: SecurityMetrics) -> Ratio {
    let d = m.signed_commits_ratio.den;
    let num = security_base(m) * d + 200 * m.signed_commits_ratio.num;
    if num > 1000 * d {
        Ratio { num: 1, den: 1 }
    } else {
        Ratio { num: num as u64, den: (1000 * d) as u64 }
    }
}

/// The security score of the metrics. The signed commits ratio is taken
/// over counts that fit in `u32`, so that the score's terms fit in `u64`.
pub fn calculate_security_score(m: &SecurityMetrics) -> (r: Ratio)
    requires
        m.signed_commits_ratio.wf(),
        m.signed_commits_ratio.den <= u32::MAX,
        m.signed_commits_ratio.num <= u32::MAX,
    ensures
        r == security_score(*m),
        r.wf(),
        r.num <= r.den,
{
    let base: u64 = security_base_of(m);
    let d = m.signed_commits_ratio.den;
    let n = m.signed_commits_ratio.num;
    assert(base * d <= 800 * 0xffff_ffffu64) by (nonlinear_arith)
        requires
            base <= 800,
            d <= 0xffff_ffffu64,
    ;
    let num = base * d + 200 * n;
    if num > 1000 * d {
        Ratio { num: 1, den: 1 }
    } else {
        Ratio { num, den: 1000 * d }
    }
}

/// The base part of the security score.
fn security_base_of(m: &SecurityMetrics) -> (b: u64)
    ensures
        b == security_base(*m),
        b <= 800,
{
    let a: u64 = if m.security_policy {
        150
    } else {
        0
    };
    let b: u64 = if m.vulnerability_disclosure {
        100
    } else {
        0
    };
    let c: u64 = if m.dependency_scanning {
        200
    } else {
        0
    };
    let d: u64 = if !m.secrets_scanning {
        200
    } else {
        0
    };
    let e: u64 = if m.security_advisories == 0 {
        100
    } else {
        0
    };
    let f: u64 = if m.cve_references == 0 {
        50
    } else if m.cve_references <= 2 {
        25
    } else {
        0
    };
    a + b + c + d + e + f
}


/// The number of true flags among the first `n` (the number of open alerts
/// among alerts, of signed commits among commits).
pub open spec fn count_true(flags: Seq<bool>) -> nat
    decreases flags.len(),
{
    if flags.len() == 0 {
        0
    } else {
        count_true(flags.drop_last()) + if flags.last() {
            1nat
        } else {
            0
        }
    }
}

/// The number of Dependabot alerts that are open, zero when the alerts
/// could not be fetched (as `u32`, truncated as `as u32` does).
pub fn count_open_alerts(open: &Option<Vec<bool>>) -> (n: u32)
    ensures
        n == match open {
            Some(v) => count_true(v@) as u32,
            None => 0,
        },
{
    match open {
        Some(v) => {
            let mut k: usize = 0;
            let mut i: usize = 0;
            while i < v.len()
                invariant
                    i <= v.len(),
                    k == count_true(v@.take(i as int)),
                    k <= i,
                decreases v.len() - i,
            {
                assert(v@.take(i + 1).drop_last() =~= v@.take(i as int));
                if v[i] {
                    k += 1;
                }
                i += 1;
            }
            assert(v@.take(v.len() as int) =~= v@);
            k as u32
        },
        None => 0,
    }
}

/// The commits read: the first 100 items of the history walk that were
/// commits, each flagged by whether its signature reads.
pub open spec fn walked_commits(walk: Seq<Option<bool>>) -> Seq<bool>
    decreases walk.len(),
{
    if walk.len() == 0 {
        seq![]
    } else {
        let rest = walked_commits(walk.drop_last());
        match walk.last() {
            Some(signed) => rest.push(signed),
            None => rest,
        }
    }
}

/// The share of signed commits among the first 100 items of a history walk
/// (newest first; `None` for an item that was not a readable commit), zero
/// without commits.
pub open spec fn signed_ratio(walk: Seq<Option<bool>>) -> Ratio {
    let cs = walked_commits(walk.take(if walk.len() < 100 { walk.len() as int } else { 100 }));
    Ratio::spec_quotient(count_true(cs) as u64, cs.len() as u64)
}

/// The share of signed commits among the first 100 items of a history
/// walk.
pub fn calculate_signed_commits_ratio(walk: &Vec<Option<bool>>) -> (r: Ratio)
    ensures
        r == signed_ratio(walk@),
        r.wf(),
        r.den <= 100,
        r.num <= r.den,
{
    let n: usize = if walk.len() < 100 {
        walk.len()
    } else {
        100
    };
    let ghost w = walk@.take(n as int);
    let mut total: u64 = 0;
    let mut signed: u64 = 0;
    let mut i: usize = 0;
    while i < n
        invariant
            i <= n <= walk.len(),
            n <= 100,
            w == walk@.take(n as int),
            total == walked_commits(w.take(i as int)).len(),
            signed == count_true(walked_commits(w.take(i as int))),
            signed <= total <= i,
        decreases n - i,
    {
        assert(w.take(i + 1).drop_last() =~= w.take(i as int));
        assert(w.take(i + 1).last() == walk@[i as int]);
        proof {
            let c = walked_commits(w.take(i as int));
            if walk@[i as int] is Some {
                assert(c.push(walk@[i as int]->0).drop_last() =~= c);
            }
        }
        match walk[i] {
            Some(b) => {
                total += 1;
                if b {
                    signed += 1;
                }
            },
            None => {},
        }
        i += 1;
    }
    assert(w.take(n as int) =~= w);
    Ratio::quotient(signed, total)
}

/// With a signed commits ratio that is a proportion `n / d`, the security
/// score is over `1000 d`, and each practice adds its own thousandths (times
/// `d`) whatever the others give: a security policy 150, a disclosure
/// process 100, dependency scanning 200, no secret found 200, no open
/// advisory 100, no CVE reference 50 (one or two 25), and signed commits
/// 200 in proportion to their share. All of them with every commit signed
/// score exactly one.
pub proof fn law_security_practices(m: SecurityMetrics, k: u32)
    requires
        m.signed_commits_ratio.wf(),
        m.signed_commits_ratio.num <= m.signed_commits_ratio.den <= u32::MAX,
    ensures
        ({
            let d = m.signed_commits_ratio.den as int;
            let n = m.signed_commits_ratio.num as int;
            &&& security_score(m).den == 1000 * d
            &&& security_score(m).num <= security_score(m).den
            &&& security_score(SecurityMetrics { security_policy: true, ..m }).num == security_score(
                SecurityMetrics { security_policy: false, ..m },
            ).num + 150 * d
            &&& security_score(SecurityMetrics { vulnerability_disclosure: true, ..m }).num == security_score(
                SecurityMetrics { vulnerability_disclosure: false, ..m },
            ).num + 100 * d
            &&& security_score(SecurityMetrics { dependency_scanning: true, ..m }).num == security_score(
                SecurityMetrics { dependency_scanning: false, ..m },
            ).num + 200 * d
            &&& security_score(SecurityMetrics { secrets_scanning: false, ..m }).num == security_score(
                SecurityMetrics { secrets_scanning: true, ..m },
            ).num + 200 * d
            &&& k > 0 ==> security_score(SecurityMetrics { security_advisories: 0, ..m }).num == security_score(
                SecurityMetrics { security_advisories: k, ..m },
            ).num + 100 * d
            &&& k > 2 ==> security_score(SecurityMetrics { cve_references: 0, ..m }).num == security_score(
                SecurityMetrics { cve_references: k, ..m },
            ).num + 50 * d
            &&& 0 < k <= 2 ==> security_score(SecurityMetrics { cve_references: k, ..m }).num == security_score(
                SecurityMetrics { cve_references: 3, ..m },
            ).num + 25 * d
            &&& security_score(m).num == security_score(
                SecurityMetrics { signed_commits_ratio: Ratio { num: 0, den: d as u64 }, ..m },
            ).num + 200 * n
        }),
        security_score(
            SecurityMetrics {
                security_policy: true,
                vulnerability_disclosure: true,
                dependency_scanning: true,
                secrets_scanning: false,
                signed_commits_ratio: Ratio { num: 1, den: 1 },
                security_advisories: 0,
                cve_references: 0,
                ..m
            },
        ) == (Ratio { num: 1000, den: 1000 }),
{
    let r = m.signed_commits_ratio;
    let z = Ratio { num: 0, den: r.den };
    lemma_security_uncapped(m);
    lemma_security_uncapped(SecurityMetrics { security_policy: true, ..m });
    lemma_security_uncapped(SecurityMetrics { security_policy: false, ..m });
    lemma_security_uncapped(SecurityMetrics { vulnerability_disclosure: true, ..m });
    lemma_security_uncapped(SecurityMetrics { vulnerability_disclosure: false, ..m });
    lemma_security_uncapped(SecurityMetrics { dependency_scanning: true, ..m });
    lemma_security_uncapped(SecurityMetrics { dependency_scanning: false, ..m });
    lemma_security_uncapped(SecurityMetrics { secrets_scanning: true, ..m });
    lemma_security_uncapped(SecurityMetrics { secrets_scanning: false, ..m });
    lemma_security_uncapped(SecurityMetrics { security_advisories: 0, ..m });
    lemma_security_uncapped(SecurityMetrics { security_advisories: k, ..m });
    lemma_security_uncapped(SecurityMetrics { cve_references: 0, ..m });
    lemma_security_uncapped(SecurityMetrics { cve_references: k, ..m });
    lemma_security_uncapped(SecurityMetrics { cve_references: 3, ..m });
    lemma_security_uncapped(SecurityMetrics { signed_commits_ratio: z, ..m });
    let all = SecurityMetrics {
        security_policy: true,
        vulnerability_disclosure: true,
        dependency_scanning: true,
        secrets_scanning: false,
        signed_commits_ratio: Ratio { num: 1, den: 1 },
        security_advisories: 0,
        cve_references: 0,
        ..m
    };
    lemma_security_uncapped(all);
    let d = r.den as int;
    lemma_scaled(security_base(SecurityMetrics { security_policy: false, ..m }), 150, d);
    lemma_scaled(security_base(SecurityMetrics { vulnerability_disclosure: false, ..m }), 100, d);
    lemma_scaled(security_base(SecurityMetrics { dependency_scanning: false, ..m }), 200, d);
    lemma_scaled(security_base(SecurityMetrics { secrets_scanning: true, ..m }), 200, d);
    lemma_scaled(security_base(SecurityMetrics { security_advisories: k, ..m }), 100, d);
    lemma_scaled(security_base(SecurityMetrics { cve_references: k, ..m }), 50, d);
    lemma_scaled(security_base(SecurityMetrics { cve_references: 3, ..m }), 25, d);
}

proof fn lemma_scaled(b: int, c: int, d: int)
    ensures
        (b + c) * d == b * d + c * d,
{
    assert((b + c) * d == b * d + c * d) by (nonlinear_arith);
}

/// With a proportion for the signed commits ratio the score is not held:
/// it is the base part times `d` plus 200 times `n`, over `1000 d`.
proof fn lemma_security_uncapped(x: SecurityMetrics)
    requires
        x.signed_commits_ratio.wf(),
        x.signed_commits_ratio.num <= x.signed_commits_ratio.den <= u32::MAX,
    ensures
        security_score(x).num == security_base(x) * x.signed_commits_ratio.den + 200
            * x.signed_commits_ratio.num,
        security_score(x).den == 1000 * x.signed_commits_ratio.den,
{
    let d = x.signed_commits_ratio.den as int;
    let n = x.signed_commits_ratio.num as int;
    let b = security_base(x);
    assert(0 <= b <= 800);
    assert(b * d <= 800 * d) by (nonlinear_arith)
        requires
            0 <= b <= 800,
            d >= 0,
    ;
    assert(b * d >= 0) by (nonlinear_arith)
        requires
            0 <= b,
            d >= 0,
    ;
}

} // verus!
