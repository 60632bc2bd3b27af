//! What the server answers about projects, templates and compilations.
use vstd::prelude::*;
use crate::model::records::{
    same_project, TexCompQueue, TexFile, TexProjEditor, TexProjFolder, TexProject,
    TexProjectCache, TexTemplate,
};
use crate::model::file_resp::{tree_node_of, FileTreeResp, TexFileResp};

verus! {

/// A compile request just queued, with the expected compile time.
pub struct CompileQueueAddResp {
    pub queue: TexCompQueue,
    /// The largest duration, in milliseconds, of the last three successful
    /// compilations of the project; 0 when there is none.
    pub estimated_compile_time: i64,
}

/// Where the newest PDF of a project is.
pub struct LatestCompile {
    pub path: String,
    pub project_id: String,
}

/// The end of a compilation: the newest PDF and the queue entry.
pub struct CompileResp {
    pub comp: LatestCompile,
    pub queue: TexCompQueue,
}

/// A project as a user's project list shows it.
pub struct TexProjResp {
    pub id: i64,
    pub proj_name: String,
    pub created_time: i64,
    pub updated_time: i64,
    pub proj_status: i32,
    pub template_id: i64,
    pub project_id: String,
    pub nickname: String,
    pub role_id: i32,
}

/// A user's project folders and projects.
pub struct ProjResp {
    pub folders: Vec<TexProjFolder>,
    pub projects: Vec<TexProjResp>,
}

/// A place in a source file.
pub struct SrcPosResp {
    pub file: String,
    pub line: i32,
    pub column: i32,
}

/// A project with its main file and file tree.
pub struct TexProjectCacheResp {
    pub main: TexProject,
    pub main_file: TexFileResp,
    pub tree: Vec<FileTreeResp>,
}

/// A collaborator of a shared project.
pub struct TexProjShareResp {
    pub collar_status: i32,
    pub nickname: String,
}

/// A template as the template list shows it.
pub struct TexTplResp {
    pub id: i64,
    pub name: String,
    pub preview_url: Option<String>,
    pub template_id: i64,
}

impl CompileQueueAddResp {
    pub fn from_queue(queue: TexCompQueue, estimated_compile_time: i64) -> (r: Self)
        ensures
            r.queue == queue,
            r.estimated_compile_time == estimated_compile_time,
    {
        CompileQueueAddResp { queue, estimated_compile_time }
    }
}

impl Default for LatestCompile {
    fn default() -> (r: Self)
        ensures
            r.path@.len() == 0,
            r.project_id@.len() == 0,
    {
        LatestCompile { path: String::new(), project_id: String::new() }
    }
}

impl CompileResp {
    pub fn from_parts(comp: LatestCompile, queue: TexCompQueue) -> (r: Self)
        ensures
            r.comp == comp,
            r.queue == queue,
    {
        CompileResp { comp, queue }
    }
}

/// `r` carries the fields of `p`, the role aside.
pub open spec fn proj_resp_of(r: TexProjResp, p: TexProject) -> bool {
    &&& r.id == p.id
    &&& r.proj_name@ == p.proj_name@
    &&& r.created_time == p.created_time
    &&& r.updated_time == p.updated_time
    &&& r.proj_status == p.proj_status
    &&& r.template_id == p.template_id
    &&& r.project_id@ == p.project_id@
    &&& r.nickname@ == p.nickname@
}

impl TexProjResp {
    /// The list entry of a project; the role starts at 0.
    pub fn from_project(p: &TexProject) -> (r: Self)
        ensures
            proj_resp_of(r, *p),
            r.role_id == 0,
    {
        TexProjResp {
            id: p.id,
            proj_name: p.proj_name.clone(),
            created_time: p.created_time,
            updated_time: p.updated_time,
            proj_status: p.proj_status,
            template_id: p.template_id,
            project_id: p.project_id.clone(),
            nickname: p.nickname.clone(),
            role_id: 0,
        }
    }
}

impl ProjResp {
    pub fn from_req(folder: Vec<TexProjFolder>, proj: Vec<TexProjResp>) -> (r: Self)
        ensures
            r.folders == folder,
            r.projects == proj,
    {
        ProjResp { folders: folder, projects: proj }
    }
}

impl SrcPosResp {
    pub fn from_parts(file: String, line: i32, column: i32) -> (r: Self)
        ensures
            r.file == file,
            r.line == line,
            r.column == column,
    {
        SrcPosResp { file, line, column }
    }
}

impl TexProjectCacheResp {
    pub fn from_db(main: &TexProject, main_file: TexFileResp, tree: Vec<FileTreeResp>) -> (r: Self)
        ensures
            same_project(r.main, *main),
            r.main_file == main_file,
            r.tree == tree,
    {
        TexProjectCacheResp { main: main.duplicate(), main_file, tree }
    }

    /// The answer built from a cached project: every file becomes a tree
    /// node without children, in the cached order.
    pub fn from_cache(cached_proj: &TexProjectCache) -> (r: Self)
        ensures
            same_project(r.main, cached_proj.main),
            crate::model::file_resp::file_resp_of(r.main_file, cached_proj.main_file),
            r.tree@.len() == cached_proj.tree@.len(),
            forall|i: int|
                0 <= i < r.tree@.len() ==> tree_node_of(#[trigger] r.tree@[i], cached_proj.tree@[i])
                    && r.tree@[i].children@.len() == 0,
    {
        let mut tree: Vec<FileTreeResp> = Vec::new();
        let n = cached_proj.tree.len();
        let mut i: usize = 0;
        while i < n
            invariant
                n == cached_proj.tree@.len(),
                i <= n,
                tree@.len() == i,
                forall|k: int|
                    0 <= k < i ==> tree_node_of(#[trigger] tree@[k], cached_proj.tree@[k])
                        && tree@[k].children@.len() == 0,
            decreases n - i,
        {
            tree.push(FileTreeResp::from_file(&cached_proj.tree[i]));
            i = i + 1;
        }
        TexProjectCacheResp {
            main: cached_proj.main.duplicate(),
            main_file: TexFileResp::from_file(&cached_proj.main_file),
            tree,
        }
    }
}

impl TexProjShareResp {
    pub fn from_editor(item: &TexProjEditor) -> (r: Self)
        ensures
            r.collar_status == item.collar_status,
            r.nickname@ == item.nickname@,
    {
        TexProjShareResp { collar_status: item.collar_status, nickname: item.nickname.clone() }
    }
}

impl TexTplResp {
    pub fn from_template(tpl: &TexTemplate) -> (r: Self)
        ensures
            r.id == tpl.id,
            r.name@ == tpl.name@,
            r.preview_url.is_some() == tpl.preview_url.is_some(),
            tpl.preview_url.is_some() ==> r.preview_url.unwrap()@ == tpl.preview_url.unwrap()@,
            r.template_id == tpl.template_id,
    {
        let preview_url = match &tpl.preview_url {
            Some(u) => Some(u.clone()),
            None => None,
        };
        TexTplResp { id: tpl.id, name: tpl.name.clone(), preview_url, template_id: tpl.template_id }
    }
}

} // verus!
