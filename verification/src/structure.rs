//! Project structure and organisation metrics.

use crate::code_quality::chars_equal;
use crate::ratio::Ratio;
use crate::text::{chars_of, ends_with, ends_with_chars};
use vstd::prelude::*;

verus! {

/// The structure score in hundredths: a source directory (`src` or `lib`)
/// 30, tests 25, docs 20, examples 10, binaries 5, and 10 more for sources
/// together with tests.
pub open spec fn structure_points(
    has_src: bool,
    has_lib: bool,
    has_tests: bool,
    has_docs: bool,
    has_examples: bool,
    has_bin: bool,
) -> int {
    (if has_src || has_lib {
        30int
    } else {
        0
    }) + (if has_tests {
        25int
    } else {
        0
    }) + (if has_docs {
        20int
    } else {
        0
    }) + (if has_examples {
        10int
    } else {
        0
    }) + (if has_bin {
        5int
    } else {
        0
    }) + (if (has_src || has_lib) && has_tests {
        10int
    } else {
        0
    })
}

/// The structure quality score, in hundredths, at most one.
pub fn calculate_structure_score(
    has_src: bool,
    has_lib: bool,
    has_tests: bool,
    has_docs: bool,
    has_examples: bool,
    has_bin: bool,
) -> (r: Ratio)
    ensures
        r.den == 100,
        r.num == structure_points(has_src, has_lib, has_tests, has_docs, has_examples, has_bin),
        r.num <= r.den,
{
    let a: u64 = if has_src || has_lib {
        30
    } else {
        0
    };
    let b: u64 = if has_tests {
        25
    } else {
        0
    };
    let c: u64 = if has_docs {
        20
    } else {
        0
    };
    let d: u64 = if has_examples {
        10
    } else {
        0
    };
    let e: u64 = if has_bin {
        5
    } else {
        0
    };
    let f: u64 = if (has_src || has_lib) && has_tests {
        10
    } else {
        0
    };
    Ratio { num: a + b + c + d + e + f, den: 100 }
}

/// A root file name that holds configuration.
pub open spec fn is_config_file(name: Seq<char>) -> bool {
    ends_with(name, ".toml"@) || ends_with(name, ".yaml"@) || ends_with(name, ".yml"@) || ends_with(
        name,
        ".json"@,
    ) || name == ".env.example"@
}

/// Whether a root file name holds configuration.
pub fn config_file(name: &str) -> (b: bool)
    ensures
        b == is_config_file(name@),
{
    let n = chars_of(name);
    ends_with_chars(&n, &chars_of(".toml")) || ends_with_chars(&n, &chars_of(".yaml"))
        || ends_with_chars(&n, &chars_of(".yml")) || ends_with_chars(&n, &chars_of(".json"))
        || chars_equal(&n, &chars_of(".env.example"))
}

/// Whether any of the root files holds configuration.
fn any_config_file(files: &Vec<String>) -> (b: bool)
    ensures
        b == exists|k: int| 0 <= k < files@.len() && is_config_file(#[trigger] files@[k]@),
{
    let mut k: usize = 0;
    while k < files.len()
        invariant
            k <= files.len(),
            forall|j: int| 0 <= j < k ==> !is_config_file(#[trigger] files@[j]@),
        decreases files.len() - k,
    {
        if config_file(files[k].as_str()) {
            return true;
        }
        k += 1;
    }
    false
}

/// Which directories exist at the repository root.
pub struct RootDirs {
    /// `src`
    pub src: bool,
    /// `lib`
    pub lib: bool,
    /// `tests` or `test`
    pub tests: bool,
    /// `docs`
    pub docs: bool,
    /// `examples`
    pub examples: bool,
    /// `bin`
    pub bin: bool,
}

/// Project structure and organisation metrics.
#[derive(Clone, Debug)]
pub struct StructureMetrics {
    pub root_files: Vec<String>,
    /// Score from 0 to 1.
    pub directory_structure_score: Ratio,
    pub follows_conventions: bool,
    pub modular_structure: bool,
    pub separation_of_concerns: bool,
    pub configuration_externalized: bool,
}

/// The structure metrics from the root files and directories.
pub fn collect_structure_metrics(root_files: Vec<String>, d: &RootDirs) -> (m: StructureMetrics)
    ensures
        m.root_files@ == root_files@,
        m.directory_structure_score == (Ratio {
            num: structure_points(d.src, d.lib, d.tests, d.docs, d.examples, d.bin) as u64,
            den: 100,
        }),
        m.follows_conventions == (d.src || d.lib),
        m.modular_structure == ((d.src || d.lib) && d.tests),
        m.separation_of_concerns == (d.src && d.tests && d.docs),
        m.configuration_externalized == exists|k: int|
            0 <= k < root_files@.len() && is_config_file(#[trigger] root_files@[k]@),
{
    let externalized = any_config_file(&root_files);
    let score = calculate_structure_score(d.src, d.lib, d.tests, d.docs, d.examples, d.bin);
    StructureMetrics {
        root_files,
        directory_structure_score: score,
        follows_conventions: d.src || d.lib,
        modular_structure: (d.src || d.lib) && d.tests,
        separation_of_concerns: d.src && d.tests && d.docs,
        configuration_externalized: externalized,
    }
}

/// Each part of the layout adds its own hundredths, whatever the others
/// give: a source directory (`src` or `lib`) 30, tests 25, docs 20,
/// examples 10 and binaries 5, and sources together with tests 10 more; a
/// project with all of them scores exactly one, and one with none zero.
pub proof fn law_structure_parts(
    has_src: bool,
    has_lib: bool,
    has_tests: bool,
    has_docs: bool,
    has_examples: bool,
    has_bin: bool,
)
    ensures
        structure_points(true, has_lib, has_tests, has_docs, has_examples, has_bin) == structure_points(
            true,
            true,
            has_tests,
            has_docs,
            has_examples,
            has_bin,
        ),
        structure_points(true, false, false, has_docs, has_examples, has_bin) == structure_points(
            false,
            false,
            false,
            has_docs,
            has_examples,
            has_bin,
        ) + 30,
        structure_points(false, false, true, has_docs, has_examples, has_bin) == structure_points(
            false,
            false,
            false,
            has_docs,
            has_examples,
            has_bin,
        ) + 25,
        structure_points(true, has_lib, true, has_docs, has_examples, has_bin) == structure_points(
            true,
            has_lib,
            false,
            has_docs,
            has_examples,
            has_bin,
        ) + 35,
        structure_points(has_src, has_lib, has_tests, true, has_examples, has_bin) == structure_points(
            has_src,
            has_lib,
            has_tests,
            false,
            has_examples,
            has_bin,
        ) + 20,
        structure_points(has_src, has_lib, has_tests, has_docs, true, has_bin) == structure_points(
            has_src,
            has_lib,
            has_tests,
            has_docs,
            false,
            has_bin,
        ) + 10,
        structure_points(has_src, has_lib, has_tests, has_docs, has_examples, true) == structure_points(
            has_src,
            has_lib,
            has_tests,
            has_docs,
            has_examples,
            false,
        ) + 5,
        structure_points(true, true, true, true, true, true) == 100,
        structure_points(false, false, false, false, false, false) == 0,
        0 <= structure_points(has_src, has_lib, has_tests, has_docs, has_examples, has_bin) <= 100,
{
}

} // verus!
