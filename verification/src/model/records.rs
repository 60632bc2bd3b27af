//! Rows of the project database, as plain values.
use vstd::prelude::*;

verus! {

/// The `file_type` of a folder; every other entry of the file table is a file.
pub const FOLDER_FILE_TYPE: i32 = 0;

/// The `file_type` of a plain file.
pub const PLAIN_FILE_TYPE: i32 = 1;

/// A file or folder of a project (table `tex_file`).
#[derive(Debug, Clone)]
pub struct TexFile {
    pub id: i64,
    pub name: String,
    pub created_time: i64,
    pub updated_time: i64,
    pub user_id: i64,
    pub doc_status: i32,
    pub project_id: String,
    pub file_type: i32,
    pub file_id: String,
    pub parent: String,
    pub main_flag: i16,
    pub yjs_initial: i16,
    pub sort: i32,
    /// Relative to the project root: for a file, the folder that holds it;
    /// for a folder, the folder itself.
    pub file_path: String,
}

/// A folder of a project as the folder tree lists it.
#[derive(Debug, Clone)]
pub struct TexFolderTree {
    pub id: i64,
    pub name: String,
    pub project_id: String,
    pub file_type: i32,
    pub file_path: String,
    pub file_id: String,
    pub parent: String,
}

/// A project (table `tex_project`).
#[derive(Debug, Clone)]
pub struct TexProject {
    pub id: i64,
    pub proj_name: String,
    pub created_time: i64,
    pub updated_time: i64,
    pub user_id: i64,
    pub proj_status: i32,
    pub template_id: i64,
    pub project_id: String,
    pub nickname: String,
}

/// A new row of `tex_project`, before the database gives it an id.
#[derive(Debug, Clone)]
pub struct TexProjectAdd {
    pub proj_name: String,
    pub created_time: i64,
    pub updated_time: i64,
    pub user_id: i64,
    pub proj_status: i32,
    pub template_id: i64,
    pub project_id: String,
    pub nickname: String,
}

/// A compile request in the compile queue (table `tex_comp_queue`).
#[derive(Debug, Clone)]
pub struct TexCompQueue {
    pub id: i64,
    pub project_id: String,
    pub user_id: i64,
    pub created_time: i64,
    pub updated_time: i64,
    pub comp_status: i32,
    pub comp_result: i32,
    pub start_time: i64,
    pub complete_time: i64,
    pub version_no: String,
    pub compile_duration_ms: Option<i64>,
}

/// The membership of a user in a project (table `tex_proj_editor`).
#[derive(Debug, Clone)]
pub struct TexProjEditor {
    pub id: i64,
    pub project_id: String,
    pub user_id: i64,
    pub role_id: i32,
    pub collar_status: i32,
    pub nickname: String,
    pub proj_status: i32,
    pub archive_status: i32,
    pub created_time: i64,
    pub updated_time: i64,
}

/// A folder in which a user groups projects (table `tex_proj_folder`).
#[derive(Debug, Clone)]
pub struct TexProjFolder {
    pub id: i64,
    pub folder_name: String,
    pub user_id: i64,
    pub proj_type: i32,
    pub default_folder: i32,
    pub created_time: i64,
    pub updated_time: i64,
}

/// The folder a project is filed under for a user (table `tex_proj_folder_map`).
#[derive(Debug, Clone)]
pub struct TexProjFolderMap {
    pub id: i64,
    pub project_id: String,
    pub folder_id: i64,
    pub user_id: i64,
    pub proj_type: i32,
}

/// A project template (table `tex_template`).
#[derive(Debug, Clone)]
pub struct TexTemplate {
    pub id: i64,
    pub name: String,
    pub preview_url: Option<String>,
    pub template_id: i64,
    pub main_file_name: String,
    pub template_type: i32,
    pub online_status: i32,
}

/// What is cached of a project: the project, its main file and all its files.
#[derive(Debug, Clone)]
pub struct TexProjectCache {
    pub main: TexProject,
    pub main_file: TexFile,
    pub tree: Vec<TexFile>,
}

impl Default for TexCompQueue {
    fn default() -> (r: Self)
        ensures
            r.id == 0 && r.project_id@.len() == 0 && r.user_id == 0 && r.created_time == 0
                && r.updated_time == 0 && r.comp_status == 0 && r.comp_result == 0 && r.start_time
                == 0 && r.complete_time == 0 && r.version_no@.len() == 0
                && r.compile_duration_ms is None,
    {
        TexCompQueue {
            id: 0,
            project_id: String::new(),
            user_id: 0,
            created_time: 0,
            updated_time: 0,
            comp_status: 0,
            comp_result: 0,
            start_time: 0,
            complete_time: 0,
            version_no: String::new(),
            compile_duration_ms: None,
        }
    }
}

/// Field-by-field equality of two projects.
pub open spec fn same_project(a: TexProject, b: TexProject) -> bool {
    &&& a.id == b.id
    &&& a.proj_name@ == b.proj_name@
    &&& a.created_time == b.created_time
    &&& a.updated_time == b.updated_time
    &&& a.user_id == b.user_id
    &&& a.proj_status == b.proj_status
    &&& a.template_id == b.template_id
    &&& a.project_id@ == b.project_id@
    &&& a.nickname@ == b.nickname@
}

impl TexProject {
    /// A copy of the project.
    pub fn duplicate(&self) -> (r: TexProject)
        ensures
            same_project(r, *self),
    {
        TexProject {
            id: self.id,
            proj_name: self.proj_name.clone(),
            created_time: self.created_time,
            updated_time: self.updated_time,
            user_id: self.user_id,
            proj_status: self.proj_status,
            template_id: self.template_id,
            project_id: self.project_id.clone(),
            nickname: self.nickname.clone(),
        }
    }
}

} // verus!
