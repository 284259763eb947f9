//! The quality score of a README.

use crate::readme::ReadmeMetrics;
use vstd::prelude::*;

verus! {

/// Points for length: 20 above 1000 bytes, 10 above 500.
pub open spec fn length_points(length: u32) -> int {
    if length > 1000 {
        20
    } else if length > 500 {
        10
    } else {
        0
    }
}

/// Points for sections: 20 for at least 5, 10 for at least 3.
pub open spec fn section_points(sections: u32) -> int {
    if sections >= 5 {
        20
    } else if sections >= 3 {
        10
    } else {
        0
    }
}

/// `k` points when `b` holds.
pub open spec fn points(b: bool, k: int) -> int {
    if b {
        k
    } else {
        0
    }
}

/// The points of a README before the cap at 100.
pub open spec fn readme_points(m: ReadmeMetrics) -> int {
    length_points(m.length) + section_points(m.sections_count) + points(m.code_blocks_count > 0, 15)
        + points(m.links_count > 3, 10) + points(m.images_count > 0, 5) + points(
        m.badges_count > 0,
        5,
    ) + points(m.table_of_contents, 5) + points(m.installation_instructions, 10) + points(
        m.usage_examples,
        10,
    ) + points(m.api_documentation, 5) + points(m.license_mentioned, 5) + points(
        m.contributing_guidelines,
        5,
    )
}

/// The quality score of a README, out of 100.
pub open spec fn readme_score(m: ReadmeMetrics) -> int {
    let s = readme_points(m);
    if s > 100 {
        100
    } else {
        s
    }
}

/// The quality score of README metrics.
#[verifier::rlimit(100)]
pub fn quality_score_of(m: &ReadmeMetrics) -> (score: u32)
    ensures
        score == readme_score(*m),
        score <= 100,
{
    let a: u32 = if m.length > 1000 {
        20
    } else if m.length > 500 {
        10
    } else {
        0
    };
    let b: u32 = if m.sections_count >= 5 {
        20
    } else if m.sections_count >= 3 {
        10
    } else {
        0
    };
    let c: u32 = points_if(m.code_blocks_count > 0, 15);
    let d: u32 = points_if(m.links_count > 3, 10);
    let e: u32 = points_if(m.images_count > 0, 5);
    let f: u32 = points_if(m.badges_count > 0, 5);
    let g: u32 = points_if(m.table_of_contents, 5);
    let h: u32 = points_if(m.installation_instructions, 10);
    let i: u32 = points_if(m.usage_examples, 10);
    let j: u32 = points_if(m.api_documentation, 5);
    let k: u32 = points_if(m.license_mentioned, 5);
    let l: u32 = points_if(m.contributing_guidelines, 5);
    let mut sum: u32 = a;
    assert(sum <= 20);
    sum = sum + b;
    assert(sum <= 40);
    sum = sum + c;
    assert(sum <= 60);
    sum = sum + d;
    assert(sum <= 80);
    sum = sum + e;
    assert(sum <= 100);
    sum = sum + f;
    assert(sum <= 120);
    sum = sum + g;
    assert(sum <= 140);
    sum = sum + h;
    assert(sum <= 160);
    sum = sum + i;
    assert(sum <= 180);
    sum = sum + j;
    assert(sum <= 200);
    sum = sum + k;
    assert(sum <= 220);
    sum = sum + l;
    proof {
        lemma_points_sum(*m, a as int, b as int, c as int, d as int, e as int, f as int, g as int, h as int, i as int, j as int, k as int, l as int);
    }
    if sum > 100 {
        100
    } else {
        sum
    }
}

proof fn lemma_points_sum(
    m: ReadmeMetrics,
    a: int,
    b: int,
    c: int,
    d: int,
    e: int,
    f: int,
    g: int,
    h: int,
    i: int,
    j: int,
    k: int,
    l: int,
)
    requires
        a == length_points(m.length),
        b == section_points(m.sections_count),
        c == points(m.code_blocks_count > 0, 15),
        d == points(m.links_count > 3, 10),
        e == points(m.images_count > 0, 5),
        f == points(m.badges_count > 0, 5),
        g == points(m.table_of_contents, 5),
        h == points(m.installation_instructions, 10),
        i == points(m.usage_examples, 10),
        j == points(m.api_documentation, 5),
        k == points(m.license_mentioned, 5),
        l == points(m.contributing_guidelines, 5),
    ensures
        a + b + c + d + e + f + g + h + i + j + k + l == readme_points(m),
{
}

/// `k` points when `b` holds.
fn points_if(b: bool, k: u32) -> (r: u32)
    requires
        k <= 20,
    ensures
        r == (if b { k } else { 0 }),
        r <= 20,
{
    if b {
        k
    } else {
        0
    }
}

/// `x` points held at 100.
pub open spec fn at_most_100(x: int) -> int {
    if x > 100 {
        100
    } else {
        x
    }
}

/// A README with nothing that earns points (at most 500 bytes, fewer than
/// 3 sections, no code block, at most 3 links, no image, no badge and none
/// of the sections looked for) scores 0.
pub proof fn law_readme_nothing_scores_zero(m: ReadmeMetrics)
    requires
        m.length <= 500,
        m.sections_count < 3,
        m.code_blocks_count == 0,
        m.links_count <= 3,
        m.images_count == 0,
        m.badges_count == 0,
        !m.table_of_contents,
        !m.installation_instructions,
        !m.usage_examples,
        !m.api_documentation,
        !m.license_mentioned,
        !m.contributing_guidelines,
    ensures
        readme_score(m) == 0,
{
}

/// Length adds by tier over a README of at most 500 bytes, up to the cap
/// of 100: over 1000 bytes 20 points, 501 to 1000 bytes 10; a longer README
/// never scores less.
pub proof fn law_readme_length(m: ReadmeMetrics, l: u32, l2: u32)
    ensures
        ({
            let short = readme_score(ReadmeMetrics { length: 0, ..m });
            let with = readme_score(ReadmeMetrics { length: l, ..m });
            &&& l > 1000 ==> with == at_most_100(short + 20)
            &&& 500 < l <= 1000 ==> with == at_most_100(short + 10)
            &&& l <= 500 ==> with == short
        }),
        l <= l2 ==> readme_score(ReadmeMetrics { length: l, ..m }) <= readme_score(
            ReadmeMetrics { length: l2, ..m },
        ),
{
}

/// Sections add by tier over fewer than 3, up to the cap of 100: 5 or more
/// give 20 points, 3 or 4 give 10; more sections never score less.
pub proof fn law_readme_sections(m: ReadmeMetrics, n: u32, n2: u32)
    ensures
        ({
            let few = readme_score(ReadmeMetrics { sections_count: 0, ..m });
            let with = readme_score(ReadmeMetrics { sections_count: n, ..m });
            &&& n >= 5 ==> with == at_most_100(few + 20)
            &&& 3 <= n < 5 ==> with == at_most_100(few + 10)
            &&& n < 3 ==> with == few
        }),
        n <= n2 ==> readme_score(ReadmeMetrics { sections_count: n, ..m }) <= readme_score(
            ReadmeMetrics { sections_count: n2, ..m },
        ),
{
}

/// Points added below the cap add to the score up to the cap.
proof fn lemma_added_points(m0: ReadmeMetrics, m1: ReadmeMetrics, k: int)
    requires
        k >= 0,
        readme_points(m1) == readme_points(m0) + k,
    ensures
        readme_score(m1) == at_most_100(readme_score(m0) + k),
{
}

proof fn lemma_points_code_blocks_count(m: ReadmeMetrics, c: u32)
    requires
        c > 0,
    ensures
        readme_points(ReadmeMetrics { code_blocks_count: c, ..m }) == readme_points(ReadmeMetrics { code_blocks_count: 0, ..m }) + 15,
{
}

proof fn lemma_points_links_count(m: ReadmeMetrics, k: u32)
    requires
        k > 3,
    ensures
        readme_points(ReadmeMetrics { links_count: k, ..m }) == readme_points(ReadmeMetrics { links_count: 0, ..m }) + 10,
{
}

proof fn lemma_points_images_count(m: ReadmeMetrics, i: u32)
    requires
        i > 0,
    ensures
        readme_points(ReadmeMetrics { images_count: i, ..m }) == readme_points(ReadmeMetrics { images_count: 0, ..m }) + 5,
{
}

proof fn lemma_points_badges_count(m: ReadmeMetrics, b: u32)
    requires
        b > 0,
    ensures
        readme_points(ReadmeMetrics { badges_count: b, ..m }) == readme_points(ReadmeMetrics { badges_count: 0, ..m }) + 5,
{
}

proof fn lemma_points_table_of_contents(m: ReadmeMetrics)
    ensures
        readme_points(ReadmeMetrics { table_of_contents: true, ..m }) == readme_points(ReadmeMetrics { table_of_contents: false, ..m }) + 5,
{
}

proof fn lemma_points_installation_instructions(m: ReadmeMetrics)
    ensures
        readme_points(ReadmeMetrics { installation_instructions: true, ..m }) == readme_points(ReadmeMetrics { installation_instructions: false, ..m }) + 10,
{
}

proof fn lemma_points_usage_examples(m: ReadmeMetrics)
    ensures
        readme_points(ReadmeMetrics { usage_examples: true, ..m }) == readme_points(ReadmeMetrics { usage_examples: false, ..m }) + 10,
{
}

proof fn lemma_points_api_documentation(m: ReadmeMetrics)
    ensures
        readme_points(ReadmeMetrics { api_documentation: true, ..m }) == readme_points(ReadmeMetrics { api_documentation: false, ..m }) + 5,
{
}

proof fn lemma_points_license_mentioned(m: ReadmeMetrics)
    ensures
        readme_points(ReadmeMetrics { license_mentioned: true, ..m }) == readme_points(ReadmeMetrics { license_mentioned: false, ..m }) + 5,
{
}

proof fn lemma_points_contributing_guidelines(m: ReadmeMetrics)
    ensures
        readme_points(ReadmeMetrics { contributing_guidelines: true, ..m }) == readme_points(ReadmeMetrics { contributing_guidelines: false, ..m }) + 5,
{
}

proof fn lemma_points_few_links(m: ReadmeMetrics, k: u32)
    requires
        k <= 3,
    ensures
        readme_points(ReadmeMetrics { links_count: k, ..m }) == readme_points(ReadmeMetrics { links_count: 0, ..m }),
{
}

/// Each count that earns points adds its own, whatever the rest give, up
/// to the cap of 100: a code block 15, more than 3 links 10, an image 5
/// and a badge 5.
pub proof fn law_readme_counts(m: ReadmeMetrics, c: u32, k: u32, i: u32, b: u32)
    ensures
        c > 0 ==> readme_score(ReadmeMetrics { code_blocks_count: c, ..m }) == at_most_100(
            readme_score(ReadmeMetrics { code_blocks_count: 0, ..m }) + 15,
        ),
        k > 3 ==> readme_score(ReadmeMetrics { links_count: k, ..m }) == at_most_100(
            readme_score(ReadmeMetrics { links_count: 0, ..m }) + 10,
        ),
        k <= 3 ==> readme_score(ReadmeMetrics { links_count: k, ..m }) == readme_score(
            ReadmeMetrics { links_count: 0, ..m },
        ),
        i > 0 ==> readme_score(ReadmeMetrics { images_count: i, ..m }) == at_most_100(
            readme_score(ReadmeMetrics { images_count: 0, ..m }) + 5,
        ),
        b > 0 ==> readme_score(ReadmeMetrics { badges_count: b, ..m }) == at_most_100(
            readme_score(ReadmeMetrics { badges_count: 0, ..m }) + 5,
        ),
        0 <= readme_score(m) <= 100,
{
    if c > 0 {
        lemma_points_code_blocks_count(m, c);
        lemma_added_points(ReadmeMetrics { code_blocks_count: 0, ..m }, ReadmeMetrics { code_blocks_count: c, ..m }, 15);
    }
    if k > 3 {
        lemma_points_links_count(m, k);
        lemma_added_points(ReadmeMetrics { links_count: 0, ..m }, ReadmeMetrics { links_count: k, ..m }, 10);
    } else {
        lemma_points_few_links(m, k);
        lemma_added_points(ReadmeMetrics { links_count: 0, ..m }, ReadmeMetrics { links_count: k, ..m }, 0);
    }
    if i > 0 {
        lemma_points_images_count(m, i);
        lemma_added_points(ReadmeMetrics { images_count: 0, ..m }, ReadmeMetrics { images_count: i, ..m }, 5);
    }
    if b > 0 {
        lemma_points_badges_count(m, b);
        lemma_added_points(ReadmeMetrics { badges_count: 0, ..m }, ReadmeMetrics { badges_count: b, ..m }, 5);
    }
}

/// Each section looked for adds its own points, whatever the rest give, up
/// to the cap of 100: a table of contents 5, installation instructions 10,
/// usage examples 10, API documentation 5, a license mention 5 and
/// contributing guidelines 5.
pub proof fn law_readme_sections_found(m: ReadmeMetrics)
    ensures
        readme_score(ReadmeMetrics { table_of_contents: true, ..m }) == at_most_100(
            readme_score(ReadmeMetrics { table_of_contents: false, ..m }) + 5,
        ),
        readme_score(ReadmeMetrics { installation_instructions: true, ..m }) == at_most_100(
            readme_score(ReadmeMetrics { installation_instructions: false, ..m }) + 10,
        ),
        readme_score(ReadmeMetrics { usage_examples: true, ..m }) == at_most_100(
            readme_score(ReadmeMetrics { usage_examples: false, ..m }) + 10,
        ),
        readme_score(ReadmeMetrics { api_documentation: true, ..m }) == at_most_100(
            readme_score(ReadmeMetrics { api_documentation: false, ..m }) + 5,
        ),
        readme_score(ReadmeMetrics { license_mentioned: true, ..m }) == at_most_100(
            readme_score(ReadmeMetrics { license_mentioned: false, ..m }) + 5,
        ),
        readme_score(ReadmeMetrics { contributing_guidelines: true, ..m }) == at_most_100(
            readme_score(ReadmeMetrics { contributing_guidelines: false, ..m }) + 5,
        ),
{
    lemma_points_table_of_contents(m);
    lemma_added_points(ReadmeMetrics { table_of_contents: false, ..m }, ReadmeMetrics { table_of_contents: true, ..m }, 5);
    lemma_points_installation_instructions(m);
    lemma_added_points(ReadmeMetrics { installation_instructions: false, ..m }, ReadmeMetrics { installation_instructions: true, ..m }, 10);
    lemma_points_usage_examples(m);
    lemma_added_points(ReadmeMetrics { usage_examples: false, ..m }, ReadmeMetrics { usage_examples: true, ..m }, 10);
    lemma_points_api_documentation(m);
    lemma_added_points(ReadmeMetrics { api_documentation: false, ..m }, ReadmeMetrics { api_documentation: true, ..m }, 5);
    lemma_points_license_mentioned(m);
    lemma_added_points(ReadmeMetrics { license_mentioned: false, ..m }, ReadmeMetrics { license_mentioned: true, ..m }, 5);
    lemma_points_contributing_guidelines(m);
    lemma_added_points(ReadmeMetrics { contributing_guidelines: false, ..m }, ReadmeMetrics { contributing_guidelines: true, ..m }, 5);
}

} // verus!
