//! Uploading assets to GitHub releases: which existing asset an upload
//! replaces, and the names it is sent under.

use vstd::prelude::*;

verus! {

/// A byte that percent-encoding leaves as it is: an ASCII letter or digit,
/// `-`, `.`, `_` or `~`.
pub open spec fn unreserved(b: u8) -> bool {
    (0x30 <= b <= 0x39) || (0x41 <= b <= 0x5a) || (0x61 <= b <= 0x7a) || b == 0x2d || b == 0x2e
        || b == 0x5f || b == 0x7e
}

/// The upper-case hexadecimal digit of a number below sixteen.
pub open spec fn hex_digit(d: int) -> char {
    if d < 10 {
        (0x30 + d) as char
    } else {
        (0x41 - 10 + d) as char
    }
}

/// The encoding of one byte: itself when unreserved, else `%` and its two
/// upper-case hexadecimal digits.
pub open spec fn byte_text(b: u8) -> Seq<char> {
    if unreserved(b) {
        seq![b as char]
    } else {
        seq!['%', hex_digit(b as int / 16), hex_digit(b as int % 16)]
    }
}

/// Percent-encoding of bytes, byte by byte.
pub open spec fn percent_encoded(bs: Seq<u8>) -> Seq<char>
    decreases bs.len(),
{
    if bs.len() == 0 {
        seq![]
    } else {
        percent_encoded(bs.drop_last()) + byte_text(bs.last())
    }
}

/// Percent-encodes a text with `urlencoding::encode`: every byte of its
/// UTF-8 encoding but ASCII letters, digits, `-`, `.`, `_` and `~` becomes
/// `%` and two upper-case hexadecimal digits.
#[verifier::external_body]
fn url_encode(s: &str) -> (r: String)
    ensures
        r@ == percent_encoded(vstd::utf8::encode_utf8(s@)),
{
    urlencoding::encode(s).into_owned()
}

/// An asset of a release, as the API lists it.
#[derive(Clone, Debug)]
pub struct AssetInfo {
    pub id: u64,
    pub name: String,
}

/// The asset that an upload replacing an existing one deletes: the first
/// listed under the same name.
pub fn asset_to_replace(assets: &Vec<AssetInfo>, name: &str) -> (r: Option<u64>)
    ensures
        match r {
            Some(id) => exists|i: int|
                0 <= i < assets@.len() && assets@[i].id == id && assets@[i].name@ == name@
                    && forall|j: int| 0 <= j < i ==> (#[trigger] assets@[j]).name@ != name@,
            None => forall|i: int| 0 <= i < assets@.len() ==> (#[trigger] assets@[i]).name@ != name@,
        },
{
    let target = name.to_owned();
    let mut i: usize = 0;
    while i < assets.len()
        invariant
            i <= assets.len(),
            target@ == name@,
            forall|j: int| 0 <= j < i ==> (#[trigger] assets@[j]).name@ != name@,
        decreases assets.len() - i,
    {
        if assets[i].name == target {
            return Some(assets[i].id);
        }
        i += 1;
    }
    None
}

/// The names an asset is uploaded under: its file name and its label,
/// percent-encoded (the client does not encode them itself).
pub fn upload_names(asset_name: &str, label: Option<&str>) -> (r: (String, Option<String>))
    ensures
        r.0@ == percent_encoded(vstd::utf8::encode_utf8(asset_name@)),
        match label {
            Some(l) => r.1 matches Some(e) && e@ == percent_encoded(vstd::utf8::encode_utf8(l@)),
            None => r.1 is None,
        },
{
    let name = url_encode(asset_name);
    let encoded_label = match label {
        Some(l) => Some(url_encode(l)),
        None => None,
    };
    (name, encoded_label)
}

} // verus!
