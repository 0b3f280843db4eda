//! Upload requests: which parts of a multipart body are stored.

use vstd::prelude::*;

use crate::service::resource::ResourcePlan;
use crate::text::text_eq;

verus! {

/// Whether a part of an upload is stored: it is named `resources`, its
/// content type is `application/octet-stream` and it has a non-empty file
/// name.
pub open spec fn is_stored_part(
    name: Option<Seq<char>>,
    content_type: Option<Seq<char>>,
    file_name: Option<Seq<char>>,
) -> bool {
    &&& name == Some("resources"@)
    &&& content_type == Some("application/octet-stream"@)
    &&& file_name matches Some(f) && f.len() > 0
}

/// The value of an optional string slice.
pub open spec fn opt_str_view(o: Option<&str>) -> Option<Seq<char>> {
    match o {
        Some(s) => Some(s@),
        None => None,
    }
}

/// The file name of a part of an upload when the part is stored; parts
/// without the expected name, content type or file name are skipped.
pub fn stored_part_file_name(
    name: Option<&str>,
    content_type: Option<&str>,
    file_name: Option<&str>,
) -> (res: Option<String>)
    ensures
        is_stored_part(opt_str_view(name), opt_str_view(content_type), opt_str_view(file_name))
            ==> (res matches Some(f) && f@ == file_name->Some_0@),
        !is_stored_part(opt_str_view(name), opt_str_view(content_type), opt_str_view(file_name))
            ==> res is None,
{
    match name {
        Some(n) => {
            if !text_eq(n, "resources") {
                return None;
            }
        },
        None => {
            return None;
        },
    }
    match content_type {
        Some(t) => {
            if !text_eq(t, "application/octet-stream") {
                return None;
            }
        },
        None => {
            return None;
        },
    }
    match file_name {
        Some(f) => {
            if f.is_empty() {
                None
            } else {
                Some(f.to_owned())
            }
        },
        None => None,
    }
}

/// The files stored so far for an upload, to be removed when a later part
/// of the same upload fails: each one under the name it was stored as.
pub fn uploaded_files(plans: &Vec<ResourcePlan>) -> (res: Vec<String>)
    ensures
        res@.len() == plans@.len(),
        forall|i: int| 0 <= i < res@.len() ==> (#[trigger] res@[i])@ == plans@[i].stored_name@,
{
    let mut names: Vec<String> = Vec::new();
    let mut i: usize = 0;
    while i < plans.len()
        invariant
            i <= plans@.len(),
            names@.len() == i,
            forall|j: int| 0 <= j < i ==> (#[trigger] names@[j])@ == plans@[j].stored_name@,
        decreases plans.len() - i,
    {
        names.push(plans[i].stored_name.clone());
        i = i + 1;
    }
    names
}

} // verus!
