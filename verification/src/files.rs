//! Which entries of a repository's tree are walked, and which files are
//! small enough to read.

use vstd::prelude::*;
use crate::search::{decimal, push_decimal, push_text};

verus! {

/// An entry is hidden when its name starts with a dot; a name that is not
/// valid Unicode is not.
pub open spec fn hidden_name(name: Option<Seq<char>>) -> bool {
    name matches Some(n) && n.len() > 0 && n[0] == '.'
}

/// Whether a directory entry, by its name, is hidden.
pub fn is_hidden(name: Option<&str>) -> (b: bool)
    ensures
        b == hidden_name(
            match name {
                Some(n) => Some(n@),
                None => None,
            },
        ),
{
    match name {
        Some(n) => {
            let c = crate::text::chars_of(n);
            c.len() > 0 && c[0] == '.'
        },
        None => false,
    }
}

/// Whether a directory entry, by its name, is the `.git` directory.
pub fn is_git_dir(name: Option<&str>) -> (b: bool)
    ensures
        b == (name matches Some(n) && n@ == ".git"@),
{
    match name {
        Some(n) => {
            let c = crate::text::chars_of(n);
            crate::code_quality::is_literal(&c, ".git")
        },
        None => false,
    }
}

/// Whether a directory entry, by its name, holds vendored or built code:
/// `node_modules`, `vendor` or `target` (a name that is not valid Unicode
/// reads as empty).
pub fn is_vendor_dir(name: Option<&str>) -> (b: bool)
    ensures
        b == (name matches Some(n) && (n@ == "node_modules"@ || n@ == "vendor"@ || n@ == "target"@)),
{
    match name {
        Some(n) => {
            let c = crate::text::chars_of(n);
            crate::code_quality::is_literal(&c, "node_modules") || crate::code_quality::is_literal(
                &c,
                "vendor",
            ) || crate::code_quality::is_literal(&c, "target")
        },
        None => false,
    }
}

/// The message for a file over the size limit.
pub open spec fn too_large_message(len: u64, max_size: usize) -> Seq<char> {
    "File too large: "@ + decimal(len as nat) + " bytes (max: "@ + decimal(max_size as nat)
        + " bytes)"@
}

/// Checks a file's length against the size limit: files longer than the
/// limit are refused with a message giving both sizes.
pub fn check_file_size(len: u64, max_size: usize) -> (r: Result<(), String>)
    ensures
        len > max_size ==> (r matches Err(m) && m@ == too_large_message(len, max_size)),
        len <= max_size ==> r is Ok,
{
    if len > max_size as u64 {
        let mut v: Vec<char> = Vec::new();
        push_text(&mut v, "File too large: ");
        push_decimal(&mut v, len);
        push_text(&mut v, " bytes (max: ");
        push_decimal(&mut v, max_size as u64);
        push_text(&mut v, " bytes)");
        assert(v@ =~= too_large_message(len, max_size));
        Err(crate::text::string_of(&v))
    } else {
        Ok(())
    }
}

} // verus!
