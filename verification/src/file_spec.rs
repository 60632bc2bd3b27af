//! The file store that project services are written against.
use vstd::prelude::*;
use crate::model::records::TexFile;

verus! {

/// A store of project files.
pub trait FileSpec {
    /// The number of files of a project.
    fn get_proj_file_count(&self, proj_id: &str) -> i64;

    /// The file with this id, if there is one.
    fn get_file_by_id(&self, file_id: &str) -> Option<TexFile>;
}

} // verus!
