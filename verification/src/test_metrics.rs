//! Test file detection and the test coverage estimate.
//!
//! The caller walks the repository and hands each file to
//! [`TestScan::add_file`]; [`collect_test_metrics`] reports the result.

use crate::code_quality::sat;
use crate::ratio::Ratio;
use crate::text::{chars_of, contains, contains_chars, count_occurrences, lines, occurrences, split_lines, starts_with, starts_with_chars};
use vstd::prelude::*;

verus! {

/// The directory names that mark tests, in the order they are looked for.
pub open spec fn test_dir_text(i: int) -> Seq<char> {
    if i == 0 {
        "test"@
    } else if i == 1 {
        "tests"@
    } else if i == 2 {
        "__tests__"@
    } else if i == 3 {
        "spec"@
    } else {
        "e2e"@
    }
}

/// A directory or path component name marks tests.
pub open spec fn is_test_dir_name(s: Seq<char>) -> bool {
    exists|i: int| 0 <= i < 5 && s == test_dir_text(i)
}

/// The `i`-th directory name that marks tests, for `i` below 5.
pub fn test_dir_name(i: usize) -> (s: Option<&'static str>)
    ensures
        i < 5 ==> (s matches Some(t) && t@ == test_dir_text(i as int)),
        i >= 5 ==> s is None,
{
    if i == 0 {
        Some("test")
    } else if i == 1 {
        Some("tests")
    } else if i == 2 {
        Some("__tests__")
    } else if i == 3 {
        Some("spec")
    } else if i == 4 {
        Some("e2e")
    } else {
        None
    }
}

/// A file is a test file by its name or by a path component naming a test
/// directory.
pub open spec fn is_test_file(name: Seq<char>, components: Seq<Seq<char>>) -> bool {
    ||| contains(name, "_test."@)
    ||| contains(name, "_spec."@)
    ||| starts_with(name, "test_"@)
    ||| contains(name, ".test."@)
    ||| contains(name, ".spec."@)
    ||| exists|k: int| 0 <= k < components.len() && is_test_dir_name(components[k])
}

/// The assertion-like words in a test file.
pub open spec fn assertion_count(c: Seq<char>) -> nat {
    occurrences(c, "assert"@) + occurrences(c, "expect"@) + occurrences(c, "should"@)
        + occurrences(c, "assertEqual"@) + occurrences(c, "assertTrue"@)
}

/// `name` appended to `fs` when `found` holds and it is not listed yet.
pub open spec fn note_framework(fs: Seq<Seq<char>>, name: Seq<char>, found: bool) -> Seq<Seq<char>> {
    if found && !fs.contains(name) {
        fs.push(name)
    } else {
        fs
    }
}

/// The test frameworks known after reading a test file.
pub open spec fn detect_frameworks(fs: Seq<Seq<char>>, c: Seq<char>) -> Seq<Seq<char>> {
    let a = note_framework(fs, "pytest"@, contains(c, "pytest"@) || contains(c, "unittest"@));
    let b = note_framework(a, "jest"@, contains(c, "jest"@) || contains(c, "describe("@));
    let d = note_framework(b, "cargo test"@, contains(c, "#[test]"@) || contains(c, "#[cfg(test)]"@));
    note_framework(d, "JUnit"@, contains(c, "@Test"@))
}

/// The views of a list of strings.
pub open spec fn texts(v: Seq<String>) -> Seq<Seq<char>> {
    v.map_values(|s: String| s@)
}

/// Test files found so far.
pub struct TestScan {
    /// A test directory exists at the repository root.
    pub has_test_dir: bool,
    pub test_files_count: u64,
    /// Lines of the test files that could be read.
    pub test_lines: u64,
    /// Assertion-like words in those files.
    pub assertions: u64,
    /// Frameworks detected, in the order first detected.
    pub test_frameworks: Vec<String>,
    pub unit: bool,
    pub integration: bool,
    pub e2e: bool,
    pub benchmark: bool,
}

impl TestScan {
    /// A scan that has seen no file; `first_test_dir` is the position in
    /// the list of test directory names of the first one that exists at the
    /// repository root, if any. Only the `e2e` directory, found first, marks
    /// end-to-end tests.
    pub fn new(first_test_dir: Option<usize>) -> (s: TestScan)
        ensures
            s.has_test_dir == (first_test_dir is Some),
            s.e2e == (first_test_dir == Some(4usize)),
            s.test_files_count == 0,
            s.test_lines == 0,
            s.assertions == 0,
            s.test_frameworks@.len() == 0,
            !s.unit,
            !s.integration,
            !s.benchmark,
    {
        TestScan {
            has_test_dir: first_test_dir.is_some(),
            test_files_count: 0,
            test_lines: 0,
            assertions: 0,
            test_frameworks: Vec::new(),
            unit: false,
            integration: false,
            e2e: first_test_dir == Some(4usize),
            benchmark: false,
        }
    }

    /// Takes in one file: its name, the components of its path and, when it
    /// could be read within the size limit, its text.
    pub fn add_file(&mut self, name: &str, components: &Vec<String>, content: Option<&str>)
        ensures
            final(self).has_test_dir == old(self).has_test_dir,
            !is_test_file(name@, texts(components@)) ==> {
                &&& final(self).test_files_count == old(self).test_files_count
                &&& final(self).test_lines == old(self).test_lines
                &&& final(self).assertions == old(self).assertions
                &&& final(self).test_frameworks@ == old(self).test_frameworks@
                &&& final(self).unit == old(self).unit
                &&& final(self).integration == old(self).integration
                &&& final(self).e2e == old(self).e2e
                &&& final(self).benchmark == old(self).benchmark
            },
            is_test_file(name@, texts(components@)) ==> {
                &&& final(self).test_files_count == sat(old(self).test_files_count, 1)
                &&& match content {
                    None => {
                        &&& final(self).test_lines == old(self).test_lines
                        &&& final(self).assertions == old(self).assertions
                        &&& final(self).test_frameworks@ == old(self).test_frameworks@
                        &&& final(self).unit == old(self).unit
                        &&& final(self).integration == old(self).integration
                        &&& final(self).e2e == old(self).e2e
                        &&& final(self).benchmark == old(self).benchmark
                    },
                    Some(c) => {
                        &&& final(self).test_lines == sat(old(self).test_lines, lines(c@).len())
                        &&& final(self).assertions == sat(old(self).assertions, assertion_count(c@))
                        &&& texts(final(self).test_frameworks@) == detect_frameworks(
                            texts(old(self).test_frameworks@),
                            c@,
                        )
                        &&& final(self).unit == (old(self).unit || contains(name@, "unit"@))
                        &&& final(self).integration == (old(self).integration || contains(
                            name@,
                            "integration"@,
                        ) || contains(name@, "integ"@))
                        &&& final(self).e2e == (old(self).e2e || contains(name@, "e2e"@)
                            || contains(name@, "end-to-end"@))
                        &&& final(self).benchmark == (old(self).benchmark || contains(
                            name@,
                            "bench"@,
                        ))
                    },
                }
            },
    {
        let n = chars_of(name);
        if !test_file(&n, components) {
            return ;
        }
        self.test_files_count = self.test_files_count.saturating_add(1);
        let c = match content {
            None => return ,
            Some(c) => c,
        };
        let text = chars_of(c);
        let ls = split_lines(&text);
        assert(ls@.len() == lines(c@).len());
        self.test_lines = self.test_lines.saturating_add(ls.len() as u64);
        self.assertions = self.assertions.saturating_add(assertions_in(&text));
        note(&mut self.test_frameworks, "pytest", contains_chars(&text, &chars_of("pytest"))
            || contains_chars(&text, &chars_of("unittest")));
        note(&mut self.test_frameworks, "jest", contains_chars(&text, &chars_of("jest"))
            || contains_chars(&text, &chars_of("describe(")));
        note(&mut self.test_frameworks, "cargo test", contains_chars(&text, &chars_of("#[test]"))
            || contains_chars(&text, &chars_of("#[cfg(test)]")));
        note(&mut self.test_frameworks, "JUnit", contains_chars(&text, &chars_of("@Test")));
        if contains_chars(&n, &chars_of("unit")) {
            self.unit = true;
        }
        if contains_chars(&n, &chars_of("integration")) || contains_chars(&n, &chars_of("integ")) {
            self.integration = true;
        }
        if contains_chars(&n, &chars_of("e2e")) || contains_chars(&n, &chars_of("end-to-end")) {
            self.e2e = true;
        }
        if contains_chars(&n, &chars_of("bench")) {
            self.benchmark = true;
        }
    }
}

/// Whether a path component names a test directory.
fn test_dir_component(s: &Vec<char>) -> (b: bool)
    ensures
        b == is_test_dir_name(s@),
{
    let mut i: usize = 0;
    while i < 5
        invariant
            i <= 5,
            forall|k: int| 0 <= k < i ==> s@ != test_dir_text(k),
        decreases 5 - i,
    {
        let d = match test_dir_name(i) {
            Some(d) => d,
            None => return false,
        };
        if crate::code_quality::chars_equal(s, &chars_of(d)) {
            return true;
        }
        i += 1;
    }
    false
}

/// Whether a file is a test file.
fn test_file(n: &Vec<char>, components: &Vec<String>) -> (b: bool)
    ensures
        b == is_test_file(n@, texts(components@)),
{
    if contains_chars(n, &chars_of("_test.")) || contains_chars(n, &chars_of("_spec."))
        || starts_with_chars(n, &chars_of("test_")) || contains_chars(n, &chars_of(".test."))
        || contains_chars(n, &chars_of(".spec.")) {
        return true;
    }
    let mut k: usize = 0;
    while k < components.len()
        invariant
            k <= components.len(),
            forall|j: int| 0 <= j < k ==> !is_test_dir_name(texts(components@)[j]),
        decreases components.len() - k,
    {
        let c = chars_of(components[k].as_str());
        if test_dir_component(&c) {
            assert(texts(components@)[k as int] == c@);
            return true;
        }
        k += 1;
    }
    false
}

/// The assertion-like words in a text, saturating at `u64::MAX`.
fn assertions_in(text: &Vec<char>) -> (n: u64)
    ensures
        n == (if assertion_count(text@) > u64::MAX {
            u64::MAX
        } else {
            assertion_count(text@) as u64
        }),
{
    proof {
        reveal_strlit("assert");
        reveal_strlit("expect");
        reveal_strlit("should");
        reveal_strlit("assertEqual");
        reveal_strlit("assertTrue");
    }
    let a = count_occurrences(text, &chars_of("assert")) as u64;
    let b = count_occurrences(text, &chars_of("expect")) as u64;
    let c = count_occurrences(text, &chars_of("should")) as u64;
    let d = count_occurrences(text, &chars_of("assertEqual")) as u64;
    let e = count_occurrences(text, &chars_of("assertTrue")) as u64;
    a.saturating_add(b).saturating_add(c).saturating_add(d).saturating_add(e)
}

/// Appends `name` to `fs` when `found` holds and it is not listed yet.
fn note(fs: &mut Vec<String>, name: &str, found: bool)
    ensures
        texts(final(fs)@) == note_framework(texts(old(fs)@), name@, found),
{
    if !found {
        return ;
    }
    let key = String::from_str(name);
    let mut i: usize = 0;
    while i < fs.len()
        invariant
            i <= fs.len(),
            fs@ == old(fs)@,
            key@ == name@,
            forall|k: int| 0 <= k < i ==> texts(fs@)[k] != name@,
        decreases fs.len() - i,
    {
        if fs[i] == key {
            assert(texts(fs@)[i as int] == name@);
            return ;
        }
        i += 1;
    }
    fs.push(key);
    assert(texts(fs@) =~= texts(old(fs)@).push(name@));
}

/// Testing coverage and framework metrics.
#[derive(Clone, Debug)]
pub struct TestMetrics {
    pub has_tests: bool,
    pub test_files_count: u32,
    pub test_lines: u32,
    /// Estimated share of code covered by tests, in tenths.
    pub test_coverage_estimate: Ratio,
    pub test_frameworks: Vec<String>,
    pub integration_tests: bool,
    pub unit_tests: bool,
    pub e2e_tests: bool,
    pub benchmark_tests: bool,
    /// Test lines per code line.
    pub test_to_code_ratio: Ratio,
}

/// The coverage estimate, in tenths: from the number of test files (more
/// than 10, more than 5, or fewer), one tenth up or down for a test-to-code
/// line ratio above one half or below one tenth, and one tenth up or down
/// for more than 5 or fewer than 1 assertion per 100 test lines.
pub open spec fn coverage_tenths(has_tests: bool, files: u64, test_lines: u64, assertions: u64, code_lines: u64) -> int {
    if !has_tests {
        0
    } else {
        let base: int = if files > 10 {
            7
        } else if files > 5 {
            5
        } else {
            3
        };
        let by_ratio: int = if code_lines > 0 && 2 * test_lines > code_lines {
            1
        } else if code_lines == 0 || 10 * test_lines < code_lines {
            -1
        } else {
            0
        };
        let by_assertions: int = if test_lines > 0 && 20 * assertions > test_lines {
            1
        } else if test_lines == 0 || 100 * assertions < test_lines {
            -1
        } else {
            0
        };
        base + by_ratio + by_assertions
    }
}

/// The test metrics of a finished scan, given the number of code lines of
/// the repository.
pub fn collect_test_metrics(scan: &TestScan, code_lines: u32) -> (m: TestMetrics)
    requires
        scan.test_files_count <= u32::MAX,
        scan.test_lines <= u32::MAX,
    ensures
        m.has_tests == (scan.test_files_count > 0 || scan.has_test_dir),
        m.test_files_count == scan.test_files_count,
        m.test_lines == scan.test_lines,
        m.test_coverage_estimate == (Ratio {
            num: coverage_tenths(
                m.has_tests,
                scan.test_files_count,
                scan.test_lines,
                scan.assertions,
                code_lines as u64,
            ) as u64,
            den: 10,
        }),
        0 <= coverage_tenths(
            m.has_tests,
            scan.test_files_count,
            scan.test_lines,
            scan.assertions,
            code_lines as u64,
        ) <= 10,
        texts(m.test_frameworks@) == texts(scan.test_frameworks@),
        m.integration_tests == scan.integration,
        m.unit_tests == (scan.unit || m.has_tests),
        m.e2e_tests == scan.e2e,
        m.benchmark_tests == scan.benchmark,
        m.test_to_code_ratio == Ratio::spec_quotient(scan.test_lines, code_lines as u64),
{
    let has_tests = scan.test_files_count > 0 || scan.has_test_dir;
    let code = code_lines as u64;
    let t = scan.test_lines;
    let a = scan.assertions;
    let tenths: u64 = if !has_tests {
        0
    } else {
        let base: u64 = if scan.test_files_count > 10 {
            7
        } else if scan.test_files_count > 5 {
            5
        } else {
            3
        };
        let up_ratio = code > 0 && 2 * t > code;
        let down_ratio = !up_ratio && (code == 0 || 10 * t < code);
        let up_assert = t > 0 && (a > t || 20 * a > t);
        let down_assert = !up_assert && (t == 0 || (a < t && 100 * a < t));
        let mut e = base;
        if up_ratio {
            e = e + 1;
        }
        if down_ratio {
            e = e - 1;
        }
        if up_assert {
            e = e + 1;
        }
        if down_assert {
            e = e - 1;
        }
        e
    };
    let mut frameworks: Vec<String> = Vec::new();
    let mut i: usize = 0;
    while i < scan.test_frameworks.len()
        invariant
            i <= scan.test_frameworks.len(),
            frameworks@.len() == i,
            forall|k: int| 0 <= k < i ==> frameworks@[k]@ == scan.test_frameworks@[k]@,
        decreases scan.test_frameworks.len() - i,
    {
        frameworks.push(scan.test_frameworks[i].clone());
        i += 1;
    }
    assert(texts(frameworks@) =~= texts(scan.test_frameworks@));
    TestMetrics {
        has_tests,
        test_files_count: scan.test_files_count as u32,
        test_lines: scan.test_lines as u32,
        test_coverage_estimate: Ratio { num: tenths, den: 10 },
        test_frameworks: frameworks,
        integration_tests: scan.integration,
        unit_tests: scan.unit || has_tests,
        e2e_tests: scan.e2e,
        benchmark_tests: scan.benchmark,
        test_to_code_ratio: Ratio::quotient(scan.test_lines, code),
    }
}

/// Without tests the coverage estimate is 0.
pub proof fn law_coverage_without_tests(files: u64, test_lines: u64, assertions: u64, code_lines: u64)
    ensures
        coverage_tenths(false, files, test_lines, assertions, code_lines) == 0,
{
}

/// With tests, a test-to-code line ratio between one tenth and one half
/// and between 1 and 5 assertions per 100 test lines, the estimate is its
/// base: 7 tenths for more than 10 test files, 5 for 6 to 10, 3 for fewer.
pub proof fn law_coverage_base(files: u64, test_lines: u64, assertions: u64, code_lines: u64)
    requires
        code_lines > 0,
        10 * test_lines >= code_lines,
        2 * test_lines <= code_lines,
        test_lines > 0,
        100 * assertions >= test_lines,
        20 * assertions <= test_lines,
    ensures
        files > 10 ==> coverage_tenths(true, files, test_lines, assertions, code_lines) == 7,
        5 < files <= 10 ==> coverage_tenths(true, files, test_lines, assertions, code_lines) == 5,
        files <= 5 ==> coverage_tenths(true, files, test_lines, assertions, code_lines) == 3,
{
}

/// With the other inputs fixed, more test files never lower the estimate:
/// going past 5 test files adds 2 tenths, and past 10 two more.
pub proof fn law_coverage_test_files(
    f1: u64,
    f2: u64,
    test_lines: u64,
    assertions: u64,
    code_lines: u64,
)
    requires
        f1 <= f2,
    ensures
        coverage_tenths(true, f1, test_lines, assertions, code_lines) <= coverage_tenths(
            true,
            f2,
            test_lines,
            assertions,
            code_lines,
        ),
        f1 <= 5 && 5 < f2 <= 10 ==> coverage_tenths(true, f2, test_lines, assertions, code_lines)
            == coverage_tenths(true, f1, test_lines, assertions, code_lines) + 2,
        f1 <= 5 && f2 > 10 ==> coverage_tenths(true, f2, test_lines, assertions, code_lines)
            == coverage_tenths(true, f1, test_lines, assertions, code_lines) + 4,
{
}

/// The test-to-code line ratio moves the estimate by one tenth: up when
/// test lines are more than half the code lines, down when they are fewer
/// than a tenth of them (or there is no code).
pub proof fn law_coverage_line_ratio(
    files: u64,
    test_lines: u64,
    assertions: u64,
    code_lines: u64,
    neutral_code: u64,
)
    requires
        neutral_code > 0,
        10 * test_lines >= neutral_code,
        2 * test_lines <= neutral_code,
    ensures
        ({
            let n = coverage_tenths(true, files, test_lines, assertions, neutral_code);
            let e = coverage_tenths(true, files, test_lines, assertions, code_lines);
            &&& code_lines > 0 && 2 * test_lines > code_lines ==> e == n + 1
            &&& (code_lines == 0 || 10 * test_lines < code_lines) ==> e == n - 1
        }),
{
}

/// Assertions move the estimate by one tenth: up for more than 5 per 100
/// test lines, down for fewer than 1 (or no test lines).
pub proof fn law_coverage_assertions(files: u64, test_lines: u64, assertions: u64, code_lines: u64, neutral: u64)
    requires
        test_lines > 0,
        100 * neutral >= test_lines,
        20 * neutral <= test_lines,
    ensures
        ({
            let n = coverage_tenths(true, files, test_lines, neutral, code_lines);
            let e = coverage_tenths(true, files, test_lines, assertions, code_lines);
            &&& 20 * assertions > test_lines ==> e == n + 1
            &&& 100 * assertions < test_lines ==> e == n - 1
        }),
{
}

} // verus!
