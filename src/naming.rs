//! Names derived from the input's locator: the stem and extension of a path
//! or URL, the name of the written file, and the download header.

use crate::error::StrangeError;
use vstd::prelude::*;
use vstd::string::*;

verus! {

/// The text of `Path::file_stem` for `path`, where it has one.
pub uninterp spec fn stem_of(path: Seq<char>) -> Option<Seq<char>>;

/// The text of `Path::extension` for `path`, where it has one.
pub uninterp spec fn extension_of(path: Seq<char>) -> Option<Seq<char>>;

/// Relies on `Path::file_stem`: the final file name without its extension,
/// read back as text; it depends on the path alone.
#[verifier::external_body]
fn file_stem(path: &str) -> (r: Option<String>)
    ensures
        r is Some <==> stem_of(path@) is Some,
        r is Some ==> r->0@ == stem_of(path@)->0,
{
    match std::path::Path::new(path).file_stem() {
        Some(s) => s.to_str().map(String::from),
        None => None,
    }
}

/// Relies on `Path::extension`: the text after the last dot of the final
/// file name, read back as text; it depends on the path alone.
#[verifier::external_body]
fn file_extension(path: &str) -> (r: Option<String>)
    ensures
        r is Some <==> extension_of(path@) is Some,
        r is Some ==> r->0@ == extension_of(path@)->0,
{
    match std::path::Path::new(path).extension() {
        Some(s) => s.to_str().map(String::from),
        None => None,
    }
}

/// The extension used where the locator has none.
pub open spec fn fallback_extension() -> Seq<char> {
    "img"@
}

/// Stem and extension of a locator, the extension falling back to `img`;
/// `None` where the locator has no stem.
pub open spec fn name_parts(path: Seq<char>) -> Option<(Seq<char>, Seq<char>)> {
    match stem_of(path) {
        None => None,
        Some(stem) => Some(
            (
                stem,
                match extension_of(path) {
                    Some(e) => e,
                    None => fallback_extension(),
                },
            ),
        ),
    }
}

/// Splits a path or URL into the stem and extension of its final name.
pub fn get_filename_and_extension(path: &str) -> (r: Option<(String, String)>)
    ensures
        r is None <==> name_parts(path@) is None,
        r is Some ==> ((r->0).0@, (r->0).1@) == name_parts(path@)->0,
{
    let stem = match file_stem(path) {
        Some(s) => s,
        None => return None,
    };
    let extension = match file_extension(path) {
        Some(e) => e,
        None => {
            proof {
                reveal_strlit("img");
            }
            String::from_str("img")
        },
    };
    Some((stem, extension))
}

/// The stem and extension for a local input, once it is known whether the
/// path exists: a missing path, or one with no file name, is
/// `InputNotFound`.
pub fn local_source(path: &str, found: bool) -> (r: Result<(String, String), StrangeError>)
    ensures
        r is Err <==> (!found || name_parts(path@) is None),
        r is Err ==> r->Err_0 == StrangeError::InputNotFound,
        r is Ok ==> ((r->Ok_0).0@, (r->Ok_0).1@) == name_parts(path@)->0,
{
    if !found {
        return Err(StrangeError::InputNotFound);
    }
    match get_filename_and_extension(path) {
        Some(parts) => Ok(parts),
        None => Err(StrangeError::InputNotFound),
    }
}

/// The name of the written file: `./{stem}_{id}.{extension}`.
pub open spec fn output_name(stem: Seq<char>, id: Seq<char>, extension: Seq<char>) -> Seq<char> {
    "./"@ + stem + "_"@ + id + "."@ + extension
}

pub fn output_filename(stem: &str, id: &str, extension: &str) -> (r: String)
    ensures
        r@ == output_name(stem@, id@, extension@),
{
    proof {
        reveal_strlit("./");
        reveal_strlit("_");
        reveal_strlit(".");
    }
    let mut r = String::from_str("./");
    r.append(stem);
    r.append("_");
    r.append(id);
    r.append(".");
    r.append(extension);
    r
}

/// Relies on `Uuid::new_v4` and its text form, which is always the
/// hyphenated form of 36 characters.
#[verifier::external_body]
fn new_id() -> (r: String)
    ensures
        r@.len() == 36,
{
    uuid::Uuid::new_v4().to_string()
}

/// A file name `./{stem}_{id}.{extension}` with a fresh random identifier.
pub fn fresh_output_filename(stem: &str, extension: &str) -> (r: String)
    ensures
        exists|id: Seq<char>|
            #![trigger output_name(stem@, id, extension@)]
            id.len() == 36 && r@ == output_name(stem@, id, extension@),
{
    let id = new_id();
    output_filename(stem, id.as_str(), extension)
}

/// The `Content-Disposition` value of a download: `attachment;
/// filename="{stem}.jpg"`.
pub open spec fn disposition_of(stem: Seq<char>) -> Seq<char> {
    "attachment; filename=\""@ + stem + ".jpg\""@
}

pub fn attachment_disposition(stem: &str) -> (r: String)
    ensures
        r@ == disposition_of(stem@),
{
    proof {
        reveal_strlit("attachment; filename=\"");
        reveal_strlit(".jpg\"");
    }
    let mut r = String::from_str("attachment; filename=\"");
    r.append(stem);
    r.append(".jpg\"");
    r
}

} // verus!
