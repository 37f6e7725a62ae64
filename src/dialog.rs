//! The native open and save dialogs: the one file type they offer, and what
//! they report back.
use vstd::prelude::*;

verus! {

/// A named file type that a dialog restricts its choices to, with the file
/// extensions (without the dot) that belong to it.
pub struct FileFilter {
    pub name: String,
    pub extensions: Vec<String>,
}

/// The filter of both dialogs: JSON files, extension `json`.
pub fn project_filter() -> (r: FileFilter)
    ensures
        r.name@ == "JSON"@,
        r.extensions.deep_view() == seq!["json"@],
{
    let name = "JSON".to_owned();
    let mut extensions: Vec<String> = Vec::new();
    extensions.push("json".to_owned());
    proof {
        assert(extensions.deep_view() =~= seq!["json"@]);
    }
    FileFilter { name, extensions }
}

/// What a dialog reports to the user interface: the chosen path, or nothing
/// when the user cancelled. Cancelling is an expected outcome, never an
/// error.
pub fn dialog_outcome(chosen: Option<String>) -> (r: Result<Option<String>, String>)
    ensures
        r is Ok,
        r->Ok_0 == chosen,
{
    Ok(chosen)
}

} // verus!
