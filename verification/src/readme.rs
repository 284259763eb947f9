//! Quality of a repository's README.

use crate::readme_score::{quality_score_of, readme_score};
use crate::pattern::{compile_pattern, count_matches, regex_compiles, regex_match_count};
use crate::text::{chars_of, contains, contains_chars, lowercase, to_lowercase};
use vstd::prelude::*;

verus! {

/// Markdown headers.
pub open spec fn header_re() -> Seq<char> {
    "(?m)^#{1,6}\\s+(.+)$"@
}

/// Fenced code blocks.
pub open spec fn code_block_re() -> Seq<char> {
    "```[\\s\\S]*?```"@
}

/// Links.
pub open spec fn link_re() -> Seq<char> {
    "\\[([^\\]]+)\\]\\(([^)]+)\\)"@
}

/// Images.
pub open spec fn image_re() -> Seq<char> {
    "!\\[([^\\]]*)\\]\\(([^)]+)\\)"@
}

/// Shields.io badges.
pub open spec fn badge_re() -> Seq<char> {
    "!\\[([^\\]]*)\\]\\(https://img\\.shields\\.io/[^)]+\\)"@
}

/// The README file names looked for, in order.
pub fn readme_variant(i: usize) -> (s: Option<&'static str>)
    ensures
        i < 6 <==> s is Some,
{
    if i == 0 {
        Some("README.md")
    } else if i == 1 {
        Some("README.txt")
    } else if i == 2 {
        Some("README.rst")
    } else if i == 3 {
        Some("README")
    } else if i == 4 {
        Some("Readme.md")
    } else if i == 5 {
        Some("readme.md")
    } else {
        None
    }
}

/// README file quality analysis.
#[derive(Clone, Debug)]
pub struct ReadmeMetrics {
    pub exists: bool,
    /// Length in bytes.
    pub length: u32,
    pub sections_count: u32,
    pub code_blocks_count: u32,
    pub links_count: u32,
    pub images_count: u32,
    pub badges_count: u32,
    pub table_of_contents: bool,
    pub installation_instructions: bool,
    pub usage_examples: bool,
    pub api_documentation: bool,
    pub license_mentioned: bool,
    pub contributing_guidelines: bool,
    /// Score from 0 to 100.
    pub quality_score: u32,
}

/// The metrics of a README text, or `None` when one of the regular
/// expressions does not compile.
pub fn collect_readme_metrics(content: &str) -> (r: Option<ReadmeMetrics>)
    ensures
        r is Some <==> (regex_compiles(header_re()) && regex_compiles(code_block_re())
            && regex_compiles(link_re()) && regex_compiles(image_re()) && regex_compiles(
            badge_re(),
        )),
        r matches Some(m) ==> {
            let low = lowercase(content@);
            &&& m.exists
            &&& m.length == content.len() as u32
            &&& m.sections_count == regex_match_count(header_re(), content@) as u32
            &&& m.code_blocks_count == regex_match_count(code_block_re(), content@) as u32
            &&& m.links_count == regex_match_count(link_re(), content@) as u32
            &&& m.images_count == regex_match_count(image_re(), content@) as u32
            &&& m.badges_count == regex_match_count(badge_re(), content@) as u32
            &&& m.table_of_contents == (contains(low, "table of contents"@) || contains(
                low,
                "## contents"@,
            ))
            &&& m.installation_instructions == (contains(low, "install"@) || contains(
                low,
                "setup"@,
            ))
            &&& m.usage_examples == (contains(low, "usage"@) || contains(low, "example"@)
                || m.code_blocks_count > 0)
            &&& m.api_documentation == (contains(low, "api"@) || contains(low, "reference"@))
            &&& m.license_mentioned == (contains(low, "license"@) || contains(low, "mit"@)
                || contains(low, "apache"@))
            &&& m.contributing_guidelines == contains(low, "contribut"@)
            &&& m.quality_score == readme_score(m)
            &&& m.quality_score <= 100
        },
{
    let header = compile_pattern("(?m)^#{1,6}\\s+(.+)$");
    let code_block = compile_pattern("```[\\s\\S]*?```");
    let link = compile_pattern("\\[([^\\]]+)\\]\\(([^)]+)\\)");
    let image = compile_pattern("!\\[([^\\]]*)\\]\\(([^)]+)\\)");
    let badge = compile_pattern("!\\[([^\\]]*)\\]\\(https://img\\.shields\\.io/[^)]+\\)");
    let (header, code_block, link, image, badge) = match (header, code_block, link, image, badge) {
        (Some(a), Some(b), Some(c), Some(d), Some(e)) => (a, b, c, d, e),
        _ => return None,
    };
    #[verifier::truncate]
    let length = content.len() as u32;
    let sections_count = count_matches(&header, content) as u32;
    let code_blocks_count = count_matches(&code_block, content) as u32;
    let links_count = count_matches(&link, content) as u32;
    let images_count = count_matches(&image, content) as u32;
    let badges_count = count_matches(&badge, content) as u32;
    let lowered = to_lowercase(content);
    let low = chars_of(lowered.as_str());
    let table_of_contents = contains_chars(&low, &chars_of("table of contents"))
        || contains_chars(&low, &chars_of("## contents"));
    let installation_instructions = contains_chars(&low, &chars_of("install")) || contains_chars(
        &low,
        &chars_of("setup"),
    );
    let usage_examples = contains_chars(&low, &chars_of("usage")) || contains_chars(
        &low,
        &chars_of("example"),
    ) || code_blocks_count > 0;
    let api_documentation = contains_chars(&low, &chars_of("api")) || contains_chars(
        &low,
        &chars_of("reference"),
    );
    let license_mentioned = contains_chars(&low, &chars_of("license")) || contains_chars(
        &low,
        &chars_of("mit"),
    ) || contains_chars(&low, &chars_of("apache"));
    let contributing_guidelines = contains_chars(&low, &chars_of("contribut"));
    let mut m = ReadmeMetrics {
            exists: true,
            length,
            sections_count,
            code_blocks_count,
            links_count,
            images_count,
            badges_count,
            table_of_contents,
            installation_instructions,
            usage_examples,
            api_documentation,
            license_mentioned,
            contributing_guidelines,
            quality_score: 0,
        };
    m.quality_score = quality_score_of(&m);
    Some(m)
}

} // verus!
