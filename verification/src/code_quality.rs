//! Line, comment, complexity, function-length and duplication statistics of
//! source files.
//!
//! The directory walk stays with the caller, which hands each file's
//! extension and text to [`CodeScan::add_file`]; the statistics of all files
//! seen are then reported by [`collect_code_quality_metrics`].

use crate::ratio::Ratio;
use crate::text::{
    chars_of, contains, contains_chars, count_occurrences, lines, occurrences, split_lines,
    starts_with, starts_with_chars, trim, trim_chars, utf8_len, utf8_len_exceeds, views,
};
use std::hash::{Hash, Hasher};
use std::collections::HashSet;
use vstd::prelude::*;

verus! {

broadcast use vstd::std_specs::hash::group_hash_axioms;

/// Programming languages recognised by file extension.
#[derive(Debug, Clone, Copy, PartialEq, Eq, Structural)]
pub enum Language {
    Rust,
    Python,
    JavaScript,
    TypeScript,
    Go,
    Java,
    C,
    Cpp,
    Ruby,
    Php,
    Swift,
    Kotlin,
    CSharp,
    Shell,
}

/// The language of a file extension; files of other extensions are not code.
pub open spec fn language_of_extension(ext: Seq<char>) -> Option<Language> {
    if ext == "rs"@ {
        Some(Language::Rust)
    } else if ext == "py"@ {
        Some(Language::Python)
    } else if ext == "js"@ || ext == "jsx"@ {
        Some(Language::JavaScript)
    } else if ext == "ts"@ || ext == "tsx"@ {
        Some(Language::TypeScript)
    } else if ext == "go"@ {
        Some(Language::Go)
    } else if ext == "java"@ {
        Some(Language::Java)
    } else if ext == "c"@ || ext == "h"@ {
        Some(Language::C)
    } else if ext == "cpp"@ || ext == "cc"@ || ext == "cxx"@ || ext == "hpp"@ {
        Some(Language::Cpp)
    } else if ext == "rb"@ {
        Some(Language::Ruby)
    } else if ext == "php"@ {
        Some(Language::Php)
    } else if ext == "swift"@ {
        Some(Language::Swift)
    } else if ext == "kt"@ || ext == "kts"@ {
        Some(Language::Kotlin)
    } else if ext == "cs"@ {
        Some(Language::CSharp)
    } else if ext == "sh"@ || ext == "bash"@ {
        Some(Language::Shell)
    } else {
        None
    }
}

impl Language {
    /// The display name of the language.
    pub open spec fn name_text(self) -> Seq<char> {
        match self {
            Language::Rust => "Rust"@,
            Language::Python => "Python"@,
            Language::JavaScript => "JavaScript"@,
            Language::TypeScript => "TypeScript"@,
            Language::Go => "Go"@,
            Language::Java => "Java"@,
            Language::C => "C"@,
            Language::Cpp => "C++"@,
            Language::Ruby => "Ruby"@,
            Language::Php => "PHP"@,
            Language::Swift => "Swift"@,
            Language::Kotlin => "Kotlin"@,
            Language::CSharp => "C#"@,
            Language::Shell => "Shell"@,
        }
    }

    /// The display name of the language.
    pub fn name(&self) -> (s: &'static str)
        ensures
            s@ == self.name_text(),
    {
        match self {
            Language::Rust => "Rust",
            Language::Python => "Python",
            Language::JavaScript => "JavaScript",
            Language::TypeScript => "TypeScript",
            Language::Go => "Go",
            Language::Java => "Java",
            Language::C => "C",
            Language::Cpp => "C++",
            Language::Ruby => "Ruby",
            Language::Php => "PHP",
            Language::Swift => "Swift",
            Language::Kotlin => "Kotlin",
            Language::CSharp => "C#",
            Language::Shell => "Shell",
        }
    }
}

/// Whether two character vectors are equal.
pub fn chars_equal(a: &Vec<char>, b: &Vec<char>) -> (r: bool)
    ensures
        r == (a@ == b@),
{
    if a.len() != b.len() {
        return false;
    }
    let mut i: usize = 0;
    while i < a.len()
        invariant
            a.len() == b.len(),
            i <= a.len(),
            forall|k: int| 0 <= k < i ==> a@[k] == b@[k],
        decreases a.len() - i,
    {
        if a[i] != b[i] {
            return false;
        }
        i += 1;
    }
    assert(a@ =~= b@);
    true
}

/// Whether the characters `a` spell the literal `lit`.
pub fn is_literal(a: &Vec<char>, lit: &str) -> (r: bool)
    ensures
        r == (a@ == lit@),
{
    let b = chars_of(lit);
    chars_equal(a, &b)
}

/// The language of a file extension, or `None` when the file is not code.
pub fn language_for_extension(ext: &str) -> (r: Option<Language>)
    ensures
        r == language_of_extension(ext@),
{
    let e = chars_of(ext);
    if is_literal(&e, "rs") {
        Some(Language::Rust)
    } else if is_literal(&e, "py") {
        Some(Language::Python)
    } else if is_literal(&e, "js") || is_literal(&e, "jsx") {
        Some(Language::JavaScript)
    } else if is_literal(&e, "ts") || is_literal(&e, "tsx") {
        Some(Language::TypeScript)
    } else if is_literal(&e, "go") {
        Some(Language::Go)
    } else if is_literal(&e, "java") {
        Some(Language::Java)
    } else if is_literal(&e, "c") || is_literal(&e, "h") {
        Some(Language::C)
    } else if is_literal(&e, "cpp") || is_literal(&e, "cc") || is_literal(&e, "cxx")
        || is_literal(&e, "hpp") {
        Some(Language::Cpp)
    } else if is_literal(&e, "rb") {
        Some(Language::Ruby)
    } else if is_literal(&e, "php") {
        Some(Language::Php)
    } else if is_literal(&e, "swift") {
        Some(Language::Swift)
    } else if is_literal(&e, "kt") || is_literal(&e, "kts") {
        Some(Language::Kotlin)
    } else if is_literal(&e, "cs") {
        Some(Language::CSharp)
    } else if is_literal(&e, "sh") || is_literal(&e, "bash") {
        Some(Language::Shell)
    } else {
        None
    }
}

/// A trimmed line is a comment in the given language.
pub open spec fn is_comment_line(t: Seq<char>, lang: Language) -> bool {
    match lang {
        Language::Python | Language::Shell | Language::Ruby => starts_with(t, "#"@),
        _ => starts_with(t, "//"@) || starts_with(t, "/*"@) || starts_with(t, "*"@),
    }
}

/// A trimmed line opens a function definition in the given language.
pub open spec fn is_function_start(t: Seq<char>, lang: Language) -> bool {
    match lang {
        Language::Rust => contains(t, "fn "@) && contains(t, "{"@),
        Language::Python => starts_with(t, "def "@) && contains(t, ":"@),
        Language::JavaScript | Language::TypeScript => (contains(t, "function "@) || contains(
            t,
            "=>"@,
        )) && (contains(t, "{"@) || contains(t, "("@)),
        Language::Go => starts_with(t, "func "@) && contains(t, "{"@),
        Language::Java | Language::CSharp | Language::Kotlin => (contains(t, "public "@)
            || contains(t, "private "@) || contains(t, "protected "@)) && contains(t, "("@)
            && contains(t, "{"@),
        Language::C | Language::Cpp => contains(t, "("@) && contains(t, ")"@) && contains(t, "{"@)
            && !starts_with(t, "if"@) && !starts_with(t, "while"@) && !starts_with(t, "for"@),
        Language::Ruby => starts_with(t, "def "@),
        Language::Php => contains(t, "function "@) && contains(t, "{"@),
        Language::Swift => contains(t, "func "@) && contains(t, "{"@),
        Language::Shell => false,
    }
}

/// The decision points of a trimmed code line: occurrences of branch and
/// loop keywords, boolean operators and `?`.
pub open spec fn line_complexity(t: Seq<char>) -> nat {
    occurrences(t, "if "@) + occurrences(t, "else if"@) + occurrences(t, "for "@) + occurrences(
        t,
        "while "@,
    ) + occurrences(t, "case "@) + occurrences(t, "catch "@) + occurrences(t, "&&"@)
        + occurrences(t, "||"@) + occurrences(t, "?"@)
}

/// A trimmed code line takes part in duplicate detection when its UTF-8
/// encoding is longer than 10 bytes.
pub open spec fn is_tracked_line(t: Seq<char>, lang: Language) -> bool {
    t.len() > 0 && !is_comment_line(t, lang) && utf8_len(t) > 10
}

/// `a + b`, saturating at `u64::MAX`.
pub open spec fn sat(a: u64, b: nat) -> u64 {
    if a + b > u64::MAX {
        u64::MAX
    } else {
        (a + b) as u64
    }
}

/// Running counts of a scan, together with the function being measured in
/// the current file.
#[derive(Debug, Clone, Copy, PartialEq, Eq, Structural)]
pub struct Tally {
    pub total: u64,
    pub blank: u64,
    pub comment: u64,
    pub code: u64,
    pub complexity: u64,
    pub duplicates: u64,
    pub functions: u64,
    pub function_lines: u64,
    /// A function has been opened and not yet closed.
    pub in_function: bool,
    /// Opening braces since the function opened.
    pub opens: u64,
    /// Closing braces since the function opened.
    pub closes: u64,
    /// Lines of the open function so far.
    pub current: u64,
}

/// The classification counts after one trimmed line.
pub open spec fn count_line(t: Tally, seen: Set<u64>, tr: Seq<char>, lang: Language) -> Tally {
    let total = sat(t.total, 1);
    if tr.len() == 0 {
        Tally { total, blank: sat(t.blank, 1), ..t }
    } else if is_comment_line(tr, lang) {
        Tally { total, comment: sat(t.comment, 1), ..t }
    } else {
        Tally {
            total,
            code: sat(t.code, 1),
            complexity: sat(t.complexity, line_complexity(tr)),
            duplicates: if utf8_len(tr) > 10 && seen.contains(text_hash(tr)) {
                sat(t.duplicates, 1)
            } else {
                t.duplicates
            },
            ..t
        }
    }
}

/// The function measurement after one trimmed line: a function opens on a
/// line that starts one, and closes on a later line where the braces seen
/// since it opened balance (or, in Python, on any later non-empty line).
pub open spec fn track_function(t: Tally, tr: Seq<char>, lang: Language) -> Tally {
    if !t.in_function && is_function_start(tr, lang) {
        Tally {
            in_function: true,
            current: 1,
            opens: occurrences(tr, "{"@) as u64,
            closes: occurrences(tr, "}"@) as u64,
            ..t
        }
    } else if t.in_function {
        let current = sat(t.current, 1);
        let opens = sat(t.opens, occurrences(tr, "{"@));
        let closes = sat(t.closes, occurrences(tr, "}"@));
        if opens <= closes || (lang == Language::Python && tr.len() > 0 && !starts_with(tr, " "@)
            && !starts_with(tr, "\t"@)) {
            Tally {
                functions: sat(t.functions, 1),
                function_lines: sat(t.function_lines, current as nat),
                in_function: false,
                opens: 0,
                closes: 0,
                current: 0,
                ..t
            }
        } else {
            Tally { current, opens, closes, ..t }
        }
    } else {
        t
    }
}

/// The hashes of the lines tracked for duplicates, after one trimmed line.
pub open spec fn remember_line(seen: Set<u64>, tr: Seq<char>, lang: Language) -> Set<u64> {
    if is_tracked_line(tr, lang) {
        seen.insert(text_hash(tr))
    } else {
        seen
    }
}

/// The scan state after the given lines.
pub open spec fn scan_lines(t: Tally, seen: Set<u64>, ls: Seq<Seq<char>>, lang: Language) -> (
    Tally,
    Set<u64>,
)
    decreases ls.len(),
{
    if ls.len() == 0 {
        (t, seen)
    } else {
        let tr = trim(ls[0]);
        scan_lines(
            track_function(count_line(t, seen, tr, lang), tr, lang),
            remember_line(seen, tr, lang),
            ls.drop_first(),
            lang,
        )
    }
}

/// The tally with no function open, as at the start of each file.
pub open spec fn reset_function(t: Tally) -> Tally {
    Tally { in_function: false, opens: 0, closes: 0, current: 0, ..t }
}

/// The patterns that the scan looks for.
pub struct CodePatterns {
    pub if_: Vec<char>,
    pub else_if: Vec<char>,
    pub for_: Vec<char>,
    pub while_: Vec<char>,
    pub case: Vec<char>,
    pub catch: Vec<char>,
    pub and: Vec<char>,
    pub or: Vec<char>,
    pub question: Vec<char>,
    pub open_brace: Vec<char>,
    pub close_brace: Vec<char>,
    pub open_paren: Vec<char>,
    pub close_paren: Vec<char>,
    pub colon: Vec<char>,
    pub fn_: Vec<char>,
    pub def: Vec<char>,
    pub function: Vec<char>,
    pub arrow: Vec<char>,
    pub func: Vec<char>,
    pub public: Vec<char>,
    pub private: Vec<char>,
    pub protected: Vec<char>,
    pub kw_if: Vec<char>,
    pub kw_while: Vec<char>,
    pub kw_for: Vec<char>,
    pub hash: Vec<char>,
    pub slashes: Vec<char>,
    pub slash_star: Vec<char>,
    pub star: Vec<char>,
    pub space: Vec<char>,
    pub tab: Vec<char>,
}

impl CodePatterns {
    /// Each pattern holds its literal.
    pub open spec fn wf(&self) -> bool {
        &&& self.if_@ == "if "@
        &&& self.else_if@ == "else if"@
        &&& self.for_@ == "for "@
        &&& self.while_@ == "while "@
        &&& self.case@ == "case "@
        &&& self.catch@ == "catch "@
        &&& self.and@ == "&&"@
        &&& self.or@ == "||"@
        &&& self.question@ == "?"@
        &&& self.open_brace@ == "{"@
        &&& self.close_brace@ == "}"@
        &&& self.open_paren@ == "("@
        &&& self.close_paren@ == ")"@
        &&& self.colon@ == ":"@
        &&& self.fn_@ == "fn "@
        &&& self.def@ == "def "@
        &&& self.function@ == "function "@
        &&& self.arrow@ == "=>"@
        &&& self.func@ == "func "@
        &&& self.public@ == "public "@
        &&& self.private@ == "private "@
        &&& self.protected@ == "protected "@
        &&& self.kw_if@ == "if"@
        &&& self.kw_while@ == "while"@
        &&& self.kw_for@ == "for"@
        &&& self.hash@ == "#"@
        &&& self.slashes@ == "//"@
        &&& self.slash_star@ == "/*"@
        &&& self.star@ == "*"@
        &&& self.space@ == " "@
        &&& self.tab@ == "\t"@
        &&& self.if_@.len() > 0
        &&& self.else_if@.len() > 0
        &&& self.for_@.len() > 0
        &&& self.while_@.len() > 0
        &&& self.case@.len() > 0
        &&& self.catch@.len() > 0
        &&& self.and@.len() > 0
        &&& self.or@.len() > 0
        &&& self.question@.len() > 0
        &&& self.open_brace@.len() > 0
        &&& self.close_brace@.len() > 0
    }

    /// The patterns.
    pub fn new() -> (p: CodePatterns)
        ensures
            p.wf(),
    {
        proof {
            reveal_strlit("if ");
            reveal_strlit("else if");
            reveal_strlit("for ");
            reveal_strlit("while ");
            reveal_strlit("case ");
            reveal_strlit("catch ");
            reveal_strlit("&&");
            reveal_strlit("||");
            reveal_strlit("?");
            reveal_strlit("{");
            reveal_strlit("}");
        }
        CodePatterns {
            if_: chars_of("if "),
            else_if: chars_of("else if"),
            for_: chars_of("for "),
            while_: chars_of("while "),
            case: chars_of("case "),
            catch: chars_of("catch "),
            and: chars_of("&&"),
            or: chars_of("||"),
            question: chars_of("?"),
            open_brace: chars_of("{"),
            close_brace: chars_of("}"),
            open_paren: chars_of("("),
            close_paren: chars_of(")"),
            colon: chars_of(":"),
            fn_: chars_of("fn "),
            def: chars_of("def "),
            function: chars_of("function "),
            arrow: chars_of("=>"),
            func: chars_of("func "),
            public: chars_of("public "),
            private: chars_of("private "),
            protected: chars_of("protected "),
            kw_if: chars_of("if"),
            kw_while: chars_of("while"),
            kw_for: chars_of("for"),
            hash: chars_of("#"),
            slashes: chars_of("//"),
            slash_star: chars_of("/*"),
            star: chars_of("*"),
            space: chars_of(" "),
            tab: chars_of("\t"),
        }
    }
}

/// Whether a trimmed line is a comment.
fn comment_line(tr: &Vec<char>, lang: Language, p: &CodePatterns) -> (b: bool)
    requires
        p.wf(),
    ensures
        b == is_comment_line(tr@, lang),
{
    match lang {
        Language::Python | Language::Shell | Language::Ruby => starts_with_chars(tr, &p.hash),
        _ => starts_with_chars(tr, &p.slashes) || starts_with_chars(tr, &p.slash_star)
            || starts_with_chars(tr, &p.star),
    }
}

/// Whether a trimmed line opens a function.
fn function_start(tr: &Vec<char>, lang: Language, p: &CodePatterns) -> (b: bool)
    requires
        p.wf(),
    ensures
        b == is_function_start(tr@, lang),
{
    match lang {
        Language::Rust => contains_chars(tr, &p.fn_) && contains_chars(tr, &p.open_brace),
        Language::Python => starts_with_chars(tr, &p.def) && contains_chars(tr, &p.colon),
        Language::JavaScript | Language::TypeScript => (contains_chars(tr, &p.function)
            || contains_chars(tr, &p.arrow)) && (contains_chars(tr, &p.open_brace)
            || contains_chars(tr, &p.open_paren)),
        Language::Go => starts_with_chars(tr, &p.func) && contains_chars(tr, &p.open_brace),
        Language::Java | Language::CSharp | Language::Kotlin => (contains_chars(tr, &p.public)
            || contains_chars(tr, &p.private) || contains_chars(tr, &p.protected))
            && contains_chars(tr, &p.open_paren) && contains_chars(tr, &p.open_brace),
        Language::C | Language::Cpp => contains_chars(tr, &p.open_paren) && contains_chars(
            tr,
            &p.close_paren,
        ) && contains_chars(tr, &p.open_brace) && !starts_with_chars(tr, &p.kw_if)
            && !starts_with_chars(tr, &p.kw_while) && !starts_with_chars(tr, &p.kw_for),
        Language::Ruby => starts_with_chars(tr, &p.def),
        Language::Php => contains_chars(tr, &p.function) && contains_chars(tr, &p.open_brace),
        Language::Swift => contains_chars(tr, &p.func) && contains_chars(tr, &p.open_brace),
        Language::Shell => false,
    }
}

/// The decision points of a trimmed code line, saturating at `u64::MAX`.
fn complexity_of(tr: &Vec<char>, p: &CodePatterns) -> (n: u64)
    requires
        p.wf(),
    ensures
        n == (if line_complexity(tr@) > u64::MAX {
            u64::MAX
        } else {
            line_complexity(tr@) as u64
        }),
{
    let a = count_occurrences(tr, &p.if_) as u64;
    let b = count_occurrences(tr, &p.else_if) as u64;
    let c = count_occurrences(tr, &p.for_) as u64;
    let d = count_occurrences(tr, &p.while_) as u64;
    let e = count_occurrences(tr, &p.case) as u64;
    let f = count_occurrences(tr, &p.catch) as u64;
    let g = count_occurrences(tr, &p.and) as u64;
    let h = count_occurrences(tr, &p.or) as u64;
    let i = count_occurrences(tr, &p.question) as u64;
    a.saturating_add(b).saturating_add(c).saturating_add(d).saturating_add(e).saturating_add(
        f,
    ).saturating_add(g).saturating_add(h).saturating_add(i)
}

/// Hash of a text under `DefaultHasher::new()`, as `str::hash` feeds it.
pub uninterp spec fn text_hash(s: Seq<char>) -> u64;

/// Calls `Hash::hash` for the `String` holding `s` on a fresh
/// `std::collections::hash_map::DefaultHasher` and returns `Hasher::finish`.
/// The contract names the result: fresh `DefaultHasher`s give equal hashes
/// for equal texts.
#[verifier::external_body]
fn hash_text(s: &Vec<char>) -> (h: u64)
    ensures
        h == text_hash(s@),
{
    let text: String = s.iter().collect();
    let mut hasher = std::collections::hash_map::DefaultHasher::new();
    text.hash(&mut hasher);
    hasher.finish()
}

/// Scans one line, updating the counts and the hashes seen.
fn scan_line(
    t: &mut Tally,
    seen: &mut HashSet<u64>,
    line: &Vec<char>,
    lang: Language,
    p: &CodePatterns,
)
    requires
        p.wf(),
    ensures
        *final(t) == track_function(
            count_line(*old(t), old(seen)@, trim(line@), lang),
            trim(line@),
            lang,
        ),
        final(seen)@ == remember_line(old(seen)@, trim(line@), lang),
{
    let tr = trim_chars(line);
    t.total = t.total.saturating_add(1);
    if tr.len() == 0 {
        t.blank = t.blank.saturating_add(1);
    } else if comment_line(&tr, lang, p) {
        t.comment = t.comment.saturating_add(1);
    } else {
        t.code = t.code.saturating_add(1);
        let cx = complexity_of(&tr, p);
        t.complexity = t.complexity.saturating_add(cx);
        if utf8_len_exceeds(&tr, 10) {
            let h = hash_text(&tr);
            let fresh = seen.insert(h);
            if !fresh {
                t.duplicates = t.duplicates.saturating_add(1);
            }
        }
    }
    if !t.in_function && function_start(&tr, lang, p) {
        t.in_function = true;
        t.current = 1;
        t.opens = count_occurrences(&tr, &p.open_brace) as u64;
        t.closes = count_occurrences(&tr, &p.close_brace) as u64;
    } else if t.in_function {
        t.current = t.current.saturating_add(1);
        let o = count_occurrences(&tr, &p.open_brace) as u64;
        let c = count_occurrences(&tr, &p.close_brace) as u64;
        t.opens = t.opens.saturating_add(o);
        t.closes = t.closes.saturating_add(c);
        if t.opens <= t.closes || (lang == Language::Python && tr.len() > 0 && !starts_with_chars(
            &tr,
            &p.space,
        ) && !starts_with_chars(&tr, &p.tab)) {
            t.functions = t.functions.saturating_add(1);
            t.function_lines = t.function_lines.saturating_add(t.current);
            t.in_function = false;
            t.opens = 0;
            t.closes = 0;
            t.current = 0;
        }
    }
}

/// The view of a list of named counts.
pub open spec fn named_counts(v: Seq<(String, u64)>) -> Seq<(Seq<char>, u64)> {
    v.map_values(|e: (String, u64)| (e.0@, e.1))
}

/// The position of `name` in `ls`, if it is there.
pub open spec fn position_of(ls: Seq<(Seq<char>, u64)>, name: Seq<char>) -> Option<int>
    decreases ls.len(),
{
    if ls.len() == 0 {
        None
    } else if ls.last().0 == name {
        match position_of(ls.drop_last(), name) {
            Some(i) => Some(i),
            None => Some(ls.len() - 1),
        }
    } else {
        position_of(ls.drop_last(), name)
    }
}

/// One more file of language `name`: its count goes up by one, or the
/// language is appended with a count of one.
pub open spec fn add_language(ls: Seq<(Seq<char>, u64)>, name: Seq<char>) -> Seq<(Seq<char>, u64)> {
    match position_of(ls, name) {
        Some(i) => ls.update(i, (name, sat(ls[i].1, 1))),
        None => ls.push((name, 1)),
    }
}

proof fn lemma_position_first_match(ls: Seq<(Seq<char>, u64)>, name: Seq<char>, i: int)
    requires
        0 <= i < ls.len(),
        ls[i].0 == name,
        forall|k: int| 0 <= k < i ==> ls[k].0 != name,
    ensures
        position_of(ls, name) == Some(i),
    decreases ls.len(),
{
    if i == ls.len() - 1 {
        lemma_position_absent(ls.drop_last(), name);
    } else {
        lemma_position_first_match(ls.drop_last(), name, i);
    }
}

proof fn lemma_position_absent(ls: Seq<(Seq<char>, u64)>, name: Seq<char>)
    requires
        forall|k: int| 0 <= k < ls.len() ==> ls[k].0 != name,
    ensures
        position_of(ls, name) is None,
    decreases ls.len(),
{
    if ls.len() > 0 {
        lemma_position_absent(ls.drop_last(), name);
    }
}

/// Counts one more file of a language in `langs`.
fn count_language(langs: &mut Vec<(String, u64)>, lang: Language)
    ensures
        named_counts(final(langs)@) == add_language(named_counts(old(langs)@), lang.name_text()),
{
    let name = lang.name();
    let key = String::from_str(name);
    let mut i: usize = 0;
    while i < langs.len()
        invariant
            i <= langs.len(),
            langs@ == old(langs)@,
            key@ == lang.name_text(),
            forall|k: int| 0 <= k < i ==> named_counts(langs@)[k].0 != key@,
        decreases langs.len() - i,
    {
        if langs[i].0 == key {
            proof {
                lemma_position_first_match(named_counts(langs@), key@, i as int);
            }
            let n = langs[i].1.saturating_add(1);
            langs.set(i, (key, n));
            assert(named_counts(langs@) =~= add_language(
                named_counts(old(langs)@),
                lang.name_text(),
            ));
            return ;
        }
        i += 1;
    }
    proof {
        lemma_position_absent(named_counts(langs@), key@);
    }
    langs.push((key, 1));
    assert(named_counts(langs@) =~= add_language(named_counts(old(langs)@), lang.name_text()));
}

/// Statistics gathered over the code files of a repository.
pub struct CodeScan {
    /// Line counts and function measurements so far.
    pub tally: Tally,
    /// Code files seen, read or not.
    pub files_count: u64,
    /// Code files per language, in the order the languages were first seen.
    pub languages: Vec<(String, u64)>,
    /// Hashes of the code lines tracked for duplicates.
    pub seen: HashSet<u64>,
}

impl CodeScan {
    /// The hashes of the code lines tracked for duplicates so far.
    pub open spec fn seen_hashes(&self) -> Set<u64> {
        self.seen@
    }

    /// An empty scan.
    pub fn new() -> (s: CodeScan)
        ensures
            s.tally == (Tally {
                total: 0,
                blank: 0,
                comment: 0,
                code: 0,
                complexity: 0,
                duplicates: 0,
                functions: 0,
                function_lines: 0,
                in_function: false,
                opens: 0,
                closes: 0,
                current: 0,
            }),
            s.files_count == 0,
            s.languages@.len() == 0,
            s.seen_hashes() == Set::<u64>::empty(),
    {
        CodeScan {
            tally: Tally {
                total: 0,
                blank: 0,
                comment: 0,
                code: 0,
                complexity: 0,
                duplicates: 0,
                functions: 0,
                function_lines: 0,
                in_function: false,
                opens: 0,
                closes: 0,
                current: 0,
            },
            files_count: 0,
            languages: Vec::new(),
            seen: HashSet::new(),
        }
    }

    /// Takes in one file of the repository, with its extension and, when it
    /// could be read within the size limit, its text. Files whose extension
    /// is not a known language are ignored; the others count as code files
    /// of their language, and their lines are scanned.
    pub fn add_file(&mut self, ext: &str, content: Option<&str>)
        ensures
            match language_of_extension(ext@) {
                None => {
                    &&& final(self).tally == old(self).tally
                    &&& final(self).files_count == old(self).files_count
                    &&& final(self).languages@ == old(self).languages@
                    &&& final(self).seen_hashes() == old(self).seen_hashes()
                },
                Some(lang) => {
                    &&& final(self).files_count == sat(old(self).files_count, 1)
                    &&& named_counts(final(self).languages@) == add_language(
                        named_counts(old(self).languages@),
                        lang.name_text(),
                    )
                    &&& match content {
                        None => {
                            &&& final(self).tally == old(self).tally
                            &&& final(self).seen_hashes() == old(self).seen_hashes()
                        },
                        Some(text) => (final(self).tally, final(self).seen_hashes())
                            == scan_lines(
                            reset_function(old(self).tally),
                            old(self).seen_hashes(),
                            lines(text@),
                            lang,
                        ),
                    }
                },
            },
    {
        let lang = match language_for_extension(ext) {
            None => return ,
            Some(l) => l,
        };
        self.files_count = self.files_count.saturating_add(1);
        count_language(&mut self.languages, lang);
        if let Some(text) = content {
            let chars = chars_of(text);
            let ls = split_lines(&chars);
            let p = CodePatterns::new();
            self.tally.in_function = false;
            self.tally.opens = 0;
            self.tally.closes = 0;
            self.tally.current = 0;
            let ghost start = (self.tally, self.seen@);
            let ghost files = self.files_count;
            let ghost langs = self.languages@;
            let mut i: usize = 0;
            assert(views(ls@).skip(0) =~= views(ls@));
            while i < ls.len()
                invariant
                    p.wf(),
                    i <= ls.len(),
                    views(ls@) == lines(text@),
                    self.files_count == files,
                    self.languages@ == langs,
                    scan_lines(start.0, start.1, lines(text@), lang) == scan_lines(
                        self.tally,
                        self.seen@,
                        views(ls@).skip(i as int),
                        lang,
                    ),
                decreases ls.len() - i,
            {
                assert(views(ls@).skip(i as int).drop_first() =~= views(ls@).skip(i + 1));
                assert(views(ls@).skip(i as int)[0] == ls@[i as int]@);
                scan_line(&mut self.tally, &mut self.seen, &ls[i], lang, &p);
                i += 1;
            }
            assert(views(ls@).skip(i as int) =~= Seq::<Seq<char>>::empty());
        }
    }

    /// Every count fits the `u32` fields of the report.
    pub open spec fn fits_report(&self) -> bool {
        &&& self.tally.total <= u32::MAX
        &&& self.tally.code <= u32::MAX
        &&& self.tally.comment <= u32::MAX
        &&& self.tally.blank <= u32::MAX
        &&& self.files_count <= u32::MAX
        &&& forall|k: int| 0 <= k < self.languages@.len() ==> self.languages@[k].1 <= u32::MAX
    }
}

/// Code quality and complexity metrics.
#[derive(Clone, Debug)]
pub struct CodeQualityMetrics {
    pub total_lines: u32,
    pub code_lines: u32,
    pub comment_lines: u32,
    pub blank_lines: u32,
    /// Comment lines per line.
    pub comment_ratio: Ratio,
    /// Lines per measured function.
    pub average_function_length: Ratio,
    /// Decision points per measured function.
    pub cyclomatic_complexity: Ratio,
    /// Repeated lines per code line.
    pub duplicate_code_ratio: Ratio,
    pub files_count: u32,
    /// Code files per language.
    pub languages: Vec<(String, u32)>,
}

/// The code quality metrics of a finished scan.
pub fn collect_code_quality_metrics(scan: &CodeScan) -> (m: CodeQualityMetrics)
    requires
        scan.fits_report(),
    ensures
        m.total_lines == scan.tally.total,
        m.code_lines == scan.tally.code,
        m.comment_lines == scan.tally.comment,
        m.blank_lines == scan.tally.blank,
        m.files_count == scan.files_count,
        m.comment_ratio == Ratio::spec_quotient(scan.tally.comment, scan.tally.total),
        m.average_function_length == Ratio::spec_quotient(
            scan.tally.function_lines,
            scan.tally.functions,
        ),
        m.cyclomatic_complexity == Ratio::spec_quotient(scan.tally.complexity, scan.tally.functions),
        m.duplicate_code_ratio == Ratio::spec_quotient(scan.tally.duplicates, scan.tally.code),
        m.languages@.len() == scan.languages@.len(),
        forall|k: int|
            0 <= k < m.languages@.len() ==> m.languages@[k].0@ == scan.languages@[k].0@
                && m.languages@[k].1 == scan.languages@[k].1,
{
    let mut languages: Vec<(String, u32)> = Vec::new();
    let mut i: usize = 0;
    while i < scan.languages.len()
        invariant
            i <= scan.languages.len(),
            scan.fits_report(),
            languages@.len() == i,
            forall|k: int|
                0 <= k < i ==> languages@[k].0@ == scan.languages@[k].0@ && languages@[k].1
                    == scan.languages@[k].1,
        decreases scan.languages.len() - i,
    {
        let name = scan.languages[i].0.clone();
        let n = scan.languages[i].1 as u32;
        languages.push((name, n));
        i += 1;
    }
    CodeQualityMetrics {
        total_lines: scan.tally.total as u32,
        code_lines: scan.tally.code as u32,
        comment_lines: scan.tally.comment as u32,
        blank_lines: scan.tally.blank as u32,
        comment_ratio: Ratio::quotient(scan.tally.comment, scan.tally.total),
        average_function_length: Ratio::quotient(scan.tally.function_lines, scan.tally.functions),
        cyclomatic_complexity: Ratio::quotient(scan.tally.complexity, scan.tally.functions),
        duplicate_code_ratio: Ratio::quotient(scan.tally.duplicates, scan.tally.code),
        files_count: scan.files_count as u32,
        languages,
    }
}


/// Every line scanned is counted once as blank, comment or code: while no
/// count saturates, the total stays the sum of the three.
pub proof fn law_lines_partitioned(t: Tally, seen: Set<u64>, ls: Seq<Seq<char>>, lang: Language)
    requires
        t.total == t.blank + t.comment + t.code,
        t.total + ls.len() <= u64::MAX,
    ensures
        scan_lines(t, seen, ls, lang).0.total == scan_lines(t, seen, ls, lang).0.blank + scan_lines(
            t,
            seen,
            ls,
            lang,
        ).0.comment + scan_lines(t, seen, ls, lang).0.code,
        scan_lines(t, seen, ls, lang).0.total == t.total + ls.len(),
    decreases ls.len(),
{
    if ls.len() > 0 {
        let tr = trim(ls[0]);
        let t1 = track_function(count_line(t, seen, tr, lang), tr, lang);
        law_lines_partitioned(t1, remember_line(seen, tr, lang), ls.drop_first(), lang);
    }
}

/// Repeated lines are code lines: the duplicate count never exceeds the
/// code line count.
pub proof fn law_duplicates_within_code(t: Tally, seen: Set<u64>, ls: Seq<Seq<char>>, lang: Language)
    requires
        t.duplicates <= t.code,
    ensures
        scan_lines(t, seen, ls, lang).0.duplicates <= scan_lines(t, seen, ls, lang).0.code,
    decreases ls.len(),
{
    if ls.len() > 0 {
        let tr = trim(ls[0]);
        let t1 = track_function(count_line(t, seen, tr, lang), tr, lang);
        law_duplicates_within_code(t1, remember_line(seen, tr, lang), ls.drop_first(), lang);
    }
}

/// Python, shell scripts and Ruby mark comments with `#`.
pub open spec fn hash_comments(lang: Language) -> bool {
    lang == Language::Python || lang == Language::Shell || lang == Language::Ruby
}

proof fn lemma_hash_line(tr: Seq<char>)
    requires
        tr.len() > 0,
        tr[0] == '#',
    ensures
        starts_with(tr, "#"@),
        !starts_with(tr, "//"@),
        !starts_with(tr, "/*"@),
        !starts_with(tr, "*"@),
{
    reveal_strlit("#");
    reveal_strlit("//");
    reveal_strlit("/*");
    reveal_strlit("*");
    assert(tr[0int + 0int] == "#"@[0]);
    assert(!starts_with(tr, "//"@)) by {
        if starts_with(tr, "//"@) {
            assert(tr[0int + 0int] == "//"@[0]);
        }
    }
    assert(!starts_with(tr, "/*"@)) by {
        if starts_with(tr, "/*"@) {
            assert(tr[0int + 0int] == "/*"@[0]);
        }
    }
    assert(!starts_with(tr, "*"@)) by {
        if starts_with(tr, "*"@) {
            assert(tr[0int + 0int] == "*"@[0]);
        }
    }
}

proof fn lemma_slash_line(tr: Seq<char>)
    requires
        tr.len() > 1,
        tr[0] == '/',
        tr[1] == '/',
    ensures
        starts_with(tr, "//"@),
        !starts_with(tr, "#"@),
{
    reveal_strlit("#");
    reveal_strlit("//");
    assert(tr[0int + 0int] == "//"@[0]);
    assert(tr[0int + 1int] == "//"@[1]);
    assert(!starts_with(tr, "#"@)) by {
        if starts_with(tr, "#"@) {
            assert(tr[0int + 0int] == "#"@[0]);
        }
    }
}

/// A line whose trimmed text starts with `#` is a comment in Python, shell
/// scripts and Ruby, and code in every other language: scanning lines that
/// all start so counts each as a comment in the former, and as code in the
/// latter, and nothing as blank.
pub proof fn law_hash_lines(t: Tally, seen: Set<u64>, ls: Seq<Seq<char>>, lang: Language)
    requires
        forall|i: int| 0 <= i < ls.len() ==> trim(#[trigger] ls[i]).len() > 0 && trim(ls[i])[0] == '#',
        t.total + ls.len() <= u64::MAX,
        t.comment + ls.len() <= u64::MAX,
        t.code + ls.len() <= u64::MAX,
    ensures
        hash_comments(lang) ==> scan_lines(t, seen, ls, lang).0.comment == t.comment + ls.len()
            && scan_lines(t, seen, ls, lang).0.code == t.code,
        !hash_comments(lang) ==> scan_lines(t, seen, ls, lang).0.code == t.code + ls.len()
            && scan_lines(t, seen, ls, lang).0.comment == t.comment,
        scan_lines(t, seen, ls, lang).0.blank == t.blank,
        scan_lines(t, seen, ls, lang).0.total == t.total + ls.len(),
    decreases ls.len(),
{
    if ls.len() > 0 {
        let tr = trim(ls[0]);
        lemma_hash_line(tr);
        let t1 = track_function(count_line(t, seen, tr, lang), tr, lang);
        assert forall|i: int| 0 <= i < ls.drop_first().len() implies trim(#[trigger] ls.drop_first()[i]).len() > 0
            && trim(ls.drop_first()[i])[0] == '#' by {
            assert(ls.drop_first()[i] == ls[i + 1]);
        }
        law_hash_lines(t1, remember_line(seen, tr, lang), ls.drop_first(), lang);
    }
}

/// A line whose trimmed text starts with `//` is a comment in every
/// language but Python, shell scripts and Ruby, where it is code.
pub proof fn law_slash_lines(t: Tally, seen: Set<u64>, ls: Seq<Seq<char>>, lang: Language)
    requires
        forall|i: int|
            0 <= i < ls.len() ==> trim(#[trigger] ls[i]).len() > 1 && trim(ls[i])[0] == '/' && trim(
                ls[i],
            )[1] == '/',
        t.total + ls.len() <= u64::MAX,
        t.comment + ls.len() <= u64::MAX,
        t.code + ls.len() <= u64::MAX,
    ensures
        !hash_comments(lang) ==> scan_lines(t, seen, ls, lang).0.comment == t.comment + ls.len()
            && scan_lines(t, seen, ls, lang).0.code == t.code,
        hash_comments(lang) ==> scan_lines(t, seen, ls, lang).0.code == t.code + ls.len()
            && scan_lines(t, seen, ls, lang).0.comment == t.comment,
        scan_lines(t, seen, ls, lang).0.blank == t.blank,
    decreases ls.len(),
{
    if ls.len() > 0 {
        let tr = trim(ls[0]);
        lemma_slash_line(tr);
        let t1 = track_function(count_line(t, seen, tr, lang), tr, lang);
        assert forall|i: int| 0 <= i < ls.drop_first().len() implies trim(#[trigger] ls.drop_first()[i]).len() > 1
            && trim(ls.drop_first()[i])[0] == '/' && trim(ls.drop_first()[i])[1] == '/' by {
            assert(ls.drop_first()[i] == ls[i + 1]);
        }
        law_slash_lines(t1, remember_line(seen, tr, lang), ls.drop_first(), lang);
    }
}

/// Lines that are empty once trimmed are blank in every language, and
/// leave the comment, code, complexity and duplicate counts as they were.
pub proof fn law_blank_lines(t: Tally, seen: Set<u64>, ls: Seq<Seq<char>>, lang: Language)
    requires
        forall|i: int| 0 <= i < ls.len() ==> trim(#[trigger] ls[i]).len() == 0,
        t.total + ls.len() <= u64::MAX,
        t.blank + ls.len() <= u64::MAX,
        !t.in_function,
    ensures
        scan_lines(t, seen, ls, lang).0.blank == t.blank + ls.len(),
        scan_lines(t, seen, ls, lang).0.comment == t.comment,
        scan_lines(t, seen, ls, lang).0.code == t.code,
        scan_lines(t, seen, ls, lang).0.complexity == t.complexity,
        scan_lines(t, seen, ls, lang).0.duplicates == t.duplicates,
    decreases ls.len(),
{
    if ls.len() > 0 {
        let tr = trim(ls[0]);
        let t1 = track_function(count_line(t, seen, tr, lang), tr, lang);
        assert(!is_function_start(tr, lang)) by {
            reveal_strlit("fn ");
            reveal_strlit("def ");
            reveal_strlit("function ");
            reveal_strlit("=>");
            reveal_strlit("func ");
            reveal_strlit("public ");
            reveal_strlit("private ");
            reveal_strlit("protected ");
            reveal_strlit("(");
            reveal_strlit(":");
            reveal_strlit("{");
        }
        assert forall|i: int| 0 <= i < ls.drop_first().len() implies trim(#[trigger] ls.drop_first()[i]).len()
            == 0 by {
            assert(ls.drop_first()[i] == ls[i + 1]);
        }
        law_blank_lines(t1, remember_line(seen, tr, lang), ls.drop_first(), lang);
    }
}

} // verus!
