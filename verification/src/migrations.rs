//! Records of the earlier storage format, read when data is migrated.
use vstd::prelude::*;

verus! {

/// A list as the earlier format stored it, with the path of its file.
#[derive(Clone, Debug)]
pub struct List {
    pub id: String,
    pub file_path: String,
    pub name: String,
    pub description: String,
    pub icon: Option<String>,
    pub hide_completed: bool,
}

} // verus!
