//! Documentation completeness metrics.

use crate::code_quality::chars_equal;
use crate::text::{chars_of, ends_with, ends_with_chars, replace_all, replace_chars, string_of};
use vstd::prelude::*;

verus! {

/// A documentation file extension.
pub open spec fn is_doc_extension(ext: Seq<char>) -> bool {
    ext == "md"@ || ext == "rst"@ || ext == "txt"@ || ext == "adoc"@
}

/// Whether a file with this extension counts as documentation.
pub fn doc_extension(ext: &str) -> (b: bool)
    ensures
        b == is_doc_extension(ext@),
{
    let e = chars_of(ext);
    chars_equal(&e, &chars_of("md")) || chars_equal(&e, &chars_of("rst")) || chars_equal(
        &e,
        &chars_of("txt"),
    ) || chars_equal(&e, &chars_of("adoc"))
}

/// The code point of the ASCII lower case of a character.
pub open spec fn ascii_lower(c: char) -> u32 {
    if 'A' <= c <= 'Z' {
        ((c as u32) + 32) as u32
    } else {
        c as u32
    }
}

/// Two texts are equal ignoring ASCII case (`str::eq_ignore_ascii_case`).
pub open spec fn eq_ignore_ascii_case(a: Seq<char>, b: Seq<char>) -> bool {
    a.len() == b.len() && forall|i: int| 0 <= i < a.len() ==> ascii_lower(a[i]) == ascii_lower(b[i])
}

fn lower_char(c: char) -> (r: u32)
    ensures
        r == ascii_lower(c),
{
    if 'A' <= c && c <= 'Z' {
        (c as u32) + 32
    } else {
        c as u32
    }
}

/// Whether two texts are equal ignoring ASCII case.
pub fn equal_ignore_ascii_case(a: &Vec<char>, b: &Vec<char>) -> (r: bool)
    ensures
        r == eq_ignore_ascii_case(a@, b@),
{
    if a.len() != b.len() {
        return false;
    }
    let mut i: usize = 0;
    while i < a.len()
        invariant
            a.len() == b.len(),
            i <= a.len(),
            forall|k: int| 0 <= k < i ==> ascii_lower(a@[k]) == ascii_lower(b@[k]),
        decreases a.len() - i,
    {
        if lower_char(a[i]) != lower_char(b[i]) {
            return false;
        }
        i += 1;
    }
    true
}

/// A wiki file counts as a page: a Markdown file outside the `.git`
/// directory.
pub open spec fn is_wiki_page(components: Seq<Seq<char>>, ext: Option<Seq<char>>) -> bool {
    &&& !(exists|k: int| 0 <= k < components.len() && components[k] == ".git"@)
    &&& ext matches Some(e) && eq_ignore_ascii_case(e, "md"@)
}

/// Whether a file of a cloned wiki counts as a page.
pub fn wiki_page(components: &Vec<String>, ext: Option<&str>) -> (b: bool)
    ensures
        b == is_wiki_page(
            components@.map_values(|s: String| s@),
            match ext {
                Some(e) => Some(e@),
                None => None,
            },
        ),
{
    let ghost views = components@.map_values(|s: String| s@);
    let git = chars_of(".git");
    let mut k: usize = 0;
    while k < components.len()
        invariant
            k <= components.len(),
            views == components@.map_values(|s: String| s@),
            git@ == ".git"@,
            forall|j: int| 0 <= j < k ==> views[j] != ".git"@,
        decreases components.len() - k,
    {
        if chars_equal(&chars_of(components[k].as_str()), &git) {
            assert(views[k as int] == ".git"@);
            return false;
        }
        k += 1;
    }
    match ext {
        Some(e) => equal_ignore_ascii_case(&chars_of(e), &chars_of("md")),
        None => false,
    }
}

/// The clone URL of a repository's wiki: every `.git` replaced by
/// `.wiki.git` when the URL ends with `.git`, else `.wiki.git` appended.
pub open spec fn wiki_url(clone_url: Seq<char>) -> Seq<char> {
    if ends_with(clone_url, ".git"@) {
        replace_all(clone_url, ".git"@, ".wiki.git"@)
    } else {
        clone_url + ".wiki.git"@
    }
}

/// The clone URL of a repository's wiki.
pub fn wiki_clone_url(clone_url: &str) -> (r: String)
    ensures
        r@ == wiki_url(clone_url@),
{
    let u = chars_of(clone_url);
    let git = chars_of(".git");
    proof {
        reveal_strlit(".git");
    }
    if ends_with_chars(&u, &git) {
        let r = replace_chars(&u, &git, &chars_of(".wiki.git"));
        string_of(&r)
    } else {
        let mut s = String::from_str(clone_url);
        s.append(".wiki.git");
        s
    }
}

/// Which documentation files exist in the repository.
pub struct DocFiles {
    /// `docs`
    pub docs: bool,
    /// `target/doc`
    pub target_doc: bool,
    /// `docs/api`
    pub docs_api: bool,
    /// `build/docs`
    pub build_docs: bool,
    /// `CHANGELOG.md`
    pub changelog_md: bool,
    /// `CHANGELOG`
    pub changelog: bool,
    /// `HISTORY.md`
    pub history_md: bool,
    /// `CONTRIBUTING.md`
    pub contributing_md: bool,
    /// `CONTRIBUTING`
    pub contributing: bool,
    /// `CODE_OF_CONDUCT.md`
    pub code_of_conduct_md: bool,
    /// `.github/ISSUE_TEMPLATE`
    pub issue_template: bool,
    /// `.github/PULL_REQUEST_TEMPLATE.md`
    pub pr_template_upper: bool,
    /// `.github/pull_request_template.md`
    pub pr_template_lower: bool,
}

/// Documentation completeness metrics.
#[derive(Clone, Debug)]
pub struct DocumentationMetrics {
    pub has_docs_folder: bool,
    pub docs_files_count: u32,
    pub api_docs_generated: bool,
    pub changelog_exists: bool,
    pub contributing_guide: bool,
    pub code_of_conduct: bool,
    pub issue_templates: bool,
    pub pr_templates: bool,
    pub wiki_pages: u32,
}

/// The documentation metrics from the files present, the number of
/// documentation files under `docs` and the number of wiki pages.
pub fn collect_documentation_metrics(f: &DocFiles, docs_files_count: u32, wiki_pages: u32) -> (m:
    DocumentationMetrics)
    ensures
        m.has_docs_folder == f.docs,
        m.docs_files_count == (if f.docs {
            docs_files_count
        } else {
            0
        }),
        m.api_docs_generated == (f.target_doc || f.docs_api || f.build_docs),
        m.changelog_exists == (f.changelog_md || f.changelog || f.history_md),
        m.contributing_guide == (f.contributing_md || f.contributing),
        m.code_of_conduct == f.code_of_conduct_md,
        m.issue_templates == f.issue_template,
        m.pr_templates == (f.pr_template_upper || f.pr_template_lower),
        m.wiki_pages == wiki_pages,
{
    DocumentationMetrics {
        has_docs_folder: f.docs,
        docs_files_count: if f.docs {
            docs_files_count
        } else {
            0
        },
        api_docs_generated: f.target_doc || f.docs_api || f.build_docs,
        changelog_exists: f.changelog_md || f.changelog || f.history_md,
        contributing_guide: f.contributing_md || f.contributing,
        code_of_conduct: f.code_of_conduct_md,
        issue_templates: f.issue_template,
        pr_templates: f.pr_template_upper || f.pr_template_lower,
        wiki_pages,
    }
}


/// A file found by walking a directory: the components of its path and its
/// extension, where that is valid Unicode.
#[derive(Clone, Debug)]
pub struct WalkedFile {
    pub components: Vec<String>,
    pub extension: Option<String>,
}

/// Whether a walked file is a wiki page.
pub open spec fn walked_page(f: WalkedFile) -> bool {
    is_wiki_page(
        f.components@.map_values(|s: String| s@),
        match f.extension {
            Some(e) => Some(e@),
            None => None,
        },
    )
}

/// The number of wiki pages among walked files.
pub open spec fn page_count(fs: Seq<WalkedFile>) -> nat
    decreases fs.len(),
{
    if fs.len() == 0 {
        0
    } else {
        page_count(fs.drop_last()) + if walked_page(fs.last()) {
            1nat
        } else {
            0
        }
    }
}

/// The number of Markdown files outside `.git` among the files of a cloned
/// wiki (as `u32`, truncated as `as u32` does).
pub fn count_markdown_files(files: &Vec<WalkedFile>) -> (n: u32)
    ensures
        n == page_count(files@) as u32,
{
    let mut k: usize = 0;
    let mut i: usize = 0;
    while i < files.len()
        invariant
            i <= files.len(),
            k == page_count(files@.take(i as int)),
            k <= i,
        decreases files.len() - i,
    {
        assert(files@.take(i + 1).drop_last() =~= files@.take(i as int));
        let ext = match &files[i].extension {
            Some(e) => Some(e.as_str()),
            None => None,
        };
        if wiki_page(&files[i].components, ext) {
            k += 1;
        }
        i += 1;
    }
    assert(files@.take(files.len() as int) =~= files@);
    k as u32
}

/// The number of wiki pages: none when the repository has no wiki or its
/// wiki could not be cloned (`None`), else the Markdown files of the clone.
pub fn count_wiki_pages(has_wiki: bool, clone: Option<&Vec<WalkedFile>>) -> (n: u32)
    ensures
        n == if has_wiki && clone is Some {
            page_count(clone->0@) as u32
        } else {
            0
        },
{
    if !has_wiki {
        return 0;
    }
    match clone {
        Some(files) => count_markdown_files(files),
        None => 0,
    }
}

} // verus!
