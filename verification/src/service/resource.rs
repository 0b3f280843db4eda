//! Uploaded resources: the name a file is stored under and the address it is
//! served from.

use vstd::prelude::*;

use crate::model::opt_view;
use crate::text::concat3;
use crate::util::{generate_id, is_hyphenated_uuid};

verus! {

/// The extension of a file name, as `std::path::Path::extension` finds it.
pub uninterp spec fn path_extension(file_name: Seq<char>) -> Option<Seq<char>>;

/// Calls `std::path::Path::extension` on the file name and returns the
/// extension as a string (a slice of a `str` is valid UTF-8, so the
/// conversion keeps it). The standard library documents that a name without
/// an embedded `.` has no extension.
#[verifier::external_body]
fn file_extension(file_name: &str) -> (res: Option<String>)
    ensures
        opt_view(res) == path_extension(file_name@),
        !file_name@.contains('.') ==> res is None,
{
    match std::path::Path::new(file_name).extension() {
        Some(ext) => ext.to_str().map(|s| s.to_owned()),
        None => None,
    }
}

/// Where an uploaded file goes and how it is served.
pub struct ResourcePlan {
    pub id: String,
    /// The name the file is stored under in the upload directory.
    pub stored_name: String,
    pub url: String,
}

/// The extension kept for a stored file: the original's, or none.
pub open spec fn kept_extension(file_name: Seq<char>) -> Seq<char> {
    match path_extension(file_name) {
        Some(e) => e,
        None => Seq::empty(),
    }
}

/// Plans the storage of an uploaded file: a fresh id, stored as the id, a
/// dot and the original extension (empty when there is none), and served at
/// the base address, a slash and the id.
pub fn plan_resource(file_name: &str, resource_base_url: &str) -> (res: ResourcePlan)
    ensures
        is_hyphenated_uuid(res.id@),
        res.stored_name@ == res.id@ + "."@ + kept_extension(file_name@),
        res.url@ == resource_base_url@ + "/"@ + res.id@,
{
    let ext = match file_extension(file_name) {
        Some(e) => e,
        None => String::new(),
    };
    let id = generate_id();
    let stored_name = concat3(id.as_str(), ".", ext.as_str());
    let url = concat3(resource_base_url, "/", id.as_str());
    ResourcePlan { id, stored_name, url }
}

} // verus!
