//! What the server answers about files and folders.
use vstd::prelude::*;
use crate::model::records::{TexFile, TexFolderTree, FOLDER_FILE_TYPE};

verus! {

/// A file of a project with its sub-files, as the file tree shows it.
pub struct FileTreeResp {
    pub id: i64,
    pub name: String,
    pub created_time: i64,
    pub updated_time: i64,
    pub user_id: i64,
    pub doc_status: i32,
    pub project_id: String,
    pub file_type: i32,
    pub file_id: String,
    pub parent: String,
    pub main_flag: i16,
    pub yjs_initial: i16,
    pub children: Vec<FileTreeResp>,
}

/// A folder of a project with its sub-folders.
pub struct FolderTreeResp {
    pub id: i64,
    pub name: String,
    pub project_id: String,
    pub file_type: i32,
    pub file_path: String,
    pub file_id: String,
    pub parent: String,
    pub children: Vec<FolderTreeResp>,
}

/// One file of a project.
pub struct TexFileResp {
    pub id: i64,
    pub name: String,
    pub created_time: i64,
    pub updated_time: i64,
    pub user_id: i64,
    pub doc_status: i32,
    pub project_id: String,
    pub file_type: i32,
    pub file_id: String,
    pub parent: String,
    pub main_flag: i16,
    pub sort: i32,
    pub yjs_initial: i16,
    pub file_path: String,
}

/// A file as the collaborative editing service needs it.
pub struct WsFileDetail {
    pub id: i64,
    pub file_path: String,
    pub project_id: String,
    pub created_time: i64,
    pub updated_time: i64,
    pub file_id: String,
    pub name: String,
    pub project_created_time: i64,
}

/// `r` carries the fields of `p`, children aside.
pub open spec fn tree_node_of(r: FileTreeResp, p: TexFile) -> bool {
    &&& r.id == p.id
    &&& r.name@ == p.name@
    &&& r.created_time == p.created_time
    &&& r.updated_time == p.updated_time
    &&& r.user_id == p.user_id
    &&& r.doc_status == p.doc_status
    &&& r.project_id@ == p.project_id@
    &&& r.file_type == p.file_type
    &&& r.file_id@ == p.file_id@
    &&& r.parent@ == p.parent@
    &&& r.main_flag == p.main_flag
}

/// `r` carries the fields of `n`, children aside.
pub open spec fn same_tree_node(r: FileTreeResp, n: FileTreeResp) -> bool {
    &&& r.id == n.id
    &&& r.name@ == n.name@
    &&& r.created_time == n.created_time
    &&& r.updated_time == n.updated_time
    &&& r.user_id == n.user_id
    &&& r.doc_status == n.doc_status
    &&& r.project_id@ == n.project_id@
    &&& r.file_type == n.file_type
    &&& r.file_id@ == n.file_id@
    &&& r.parent@ == n.parent@
    &&& r.main_flag == n.main_flag
}

/// `r` carries the fields of `p`, children aside.
pub open spec fn folder_node_of(r: FolderTreeResp, p: TexFolderTree) -> bool {
    &&& r.id == p.id
    &&& r.name@ == p.name@
    &&& r.project_id@ == p.project_id@
    &&& r.file_type == p.file_type
    &&& r.file_path@ == p.file_path@
    &&& r.file_id@ == p.file_id@
    &&& r.parent@ == p.parent@
}

/// `r` carries the fields of `n`, children aside.
pub open spec fn same_folder_node(r: FolderTreeResp, n: FolderTreeResp) -> bool {
    &&& r.id == n.id
    &&& r.name@ == n.name@
    &&& r.project_id@ == n.project_id@
    &&& r.file_type == n.file_type
    &&& r.file_path@ == n.file_path@
    &&& r.file_id@ == n.file_id@
    &&& r.parent@ == n.parent@
}

/// `r` carries every field of `p`.
pub open spec fn file_resp_of(r: TexFileResp, p: TexFile) -> bool {
    &&& r.id == p.id
    &&& r.name@ == p.name@
    &&& r.created_time == p.created_time
    &&& r.updated_time == p.updated_time
    &&& r.user_id == p.user_id
    &&& r.doc_status == p.doc_status
    &&& r.project_id@ == p.project_id@
    &&& r.file_type == p.file_type
    &&& r.file_id@ == p.file_id@
    &&& r.parent@ == p.parent@
    &&& r.main_flag == p.main_flag
    &&& r.sort == p.sort
    &&& r.yjs_initial == p.yjs_initial
    &&& r.file_path@ == p.file_path@
}

impl Default for FileTreeResp {
    fn default() -> (r: Self)
        ensures
            r.id == 0 && r.name@.len() == 0 && r.created_time == 0 && r.updated_time == 0
                && r.user_id == 0 && r.doc_status == 1 && r.project_id@.len() == 0 && r.file_type
                == 1 && r.file_id@.len() == 0 && r.parent@.len() == 0 && r.main_flag == 0
                && r.yjs_initial == 0 && r.children@.len() == 0,
    {
        FileTreeResp {
            id: 0,
            children: Vec::new(),
            name: String::new(),
            created_time: 0,
            updated_time: 0,
            user_id: 0,
            doc_status: 1,
            project_id: String::new(),
            file_type: 1,
            file_id: String::new(),
            parent: String::new(),
            main_flag: 0,
            yjs_initial: 0,
        }
    }
}

impl FileTreeResp {
    /// The tree node of a file, without children; `yjs_initial` starts at 0.
    pub fn from_file(p: &TexFile) -> (r: Self)
        ensures
            tree_node_of(r, *p),
            r.yjs_initial == 0,
            r.children@.len() == 0,
    {
        FileTreeResp {
            children: Vec::new(),
            id: p.id,
            name: p.name.clone(),
            created_time: p.created_time,
            updated_time: p.updated_time,
            user_id: p.user_id,
            doc_status: p.doc_status,
            project_id: p.project_id.clone(),
            file_type: p.file_type,
            file_id: p.file_id.clone(),
            parent: p.parent.clone(),
            main_flag: p.main_flag,
            yjs_initial: 0,
        }
    }

    /// The key under which the tree places this node.
    pub fn get_id(&self) -> (r: String)
        ensures
            r@ == self.file_id@,
    {
        self.file_id.clone()
    }

    /// The key of the node this one hangs under.
    pub fn get_parent_id(&self) -> (r: String)
        ensures
            r@ == self.parent@,
    {
        self.parent.clone()
    }

    /// This node with the given children; `yjs_initial` starts at 0.
    pub fn convert(&self, children: Vec<FileTreeResp>) -> (r: FileTreeResp)
        ensures
            same_tree_node(r, *self),
            r.yjs_initial == 0,
            r.children == children,
    {
        FileTreeResp {
            id: self.id,
            name: self.name.clone(),
            created_time: self.created_time,
            updated_time: self.updated_time,
            user_id: self.user_id,
            doc_status: self.doc_status,
            project_id: self.project_id.clone(),
            file_type: self.file_type,
            file_id: self.file_id.clone(),
            parent: self.parent.clone(),
            main_flag: self.main_flag,
            yjs_initial: 0,
            children,
        }
    }
}

impl Default for FolderTreeResp {
    fn default() -> (r: Self)
        ensures
            r.id == 0 && r.name@.len() == 0 && r.project_id@.len() == 0 && r.file_type == 1
                && r.file_path@.len() == 0 && r.file_id@.len() == 0 && r.parent@.len() == 0
                && r.children@.len() == 0,
    {
        FolderTreeResp {
            id: 0,
            children: Vec::new(),
            name: String::new(),
            project_id: String::new(),
            file_type: 1,
            file_id: String::new(),
            parent: String::new(),
            file_path: String::new(),
        }
    }
}

impl FolderTreeResp {
    /// The tree node of a folder, without children.
    pub fn from_folder(p: &TexFolderTree) -> (r: Self)
        ensures
            folder_node_of(r, *p),
            r.children@.len() == 0,
    {
        FolderTreeResp {
            children: Vec::new(),
            id: p.id,
            name: p.name.clone(),
            project_id: p.project_id.clone(),
            file_type: p.file_type,
            file_path: p.file_path.clone(),
            file_id: p.file_id.clone(),
            parent: p.parent.clone(),
        }
    }

    /// The root `/` of a project's folder tree, holding `children`.
    pub fn new_virtual_root(proj_id: &String, children: Vec<FolderTreeResp>) -> (r: Self)
        ensures
            r.children == children,
            r.id == -1,
            r.name@ == seq!['/'],
            r.project_id@ == proj_id@,
            r.file_type == FOLDER_FILE_TYPE,
            r.file_path@ == seq!['/'],
            r.file_id@ == proj_id@,
            r.parent@ == seq!['/'],
    {
        let root = "/";
        proof {
            reveal_strlit("/");
        }
        FolderTreeResp {
            children: children,
            id: -1,
            name: String::from_str(root),
            project_id: proj_id.clone(),
            file_type: FOLDER_FILE_TYPE,
            file_path: String::from_str(root),
            file_id: proj_id.clone(),
            parent: String::from_str(root),
        }
    }

    /// The key under which the tree places this node.
    pub fn get_id(&self) -> (r: String)
        ensures
            r@ == self.file_id@,
    {
        self.file_id.clone()
    }

    /// The key of the node this one hangs under.
    pub fn get_parent_id(&self) -> (r: String)
        ensures
            r@ == self.parent@,
    {
        self.parent.clone()
    }

    /// This node with the given children.
    pub fn convert(&self, children: Vec<FolderTreeResp>) -> (r: FolderTreeResp)
        ensures
            same_folder_node(r, *self),
            r.children == children,
    {
        FolderTreeResp {
            id: self.id,
            name: self.name.clone(),
            project_id: self.project_id.clone(),
            file_path: self.file_path.clone(),
            file_type: self.file_type,
            file_id: self.file_id.clone(),
            parent: self.parent.clone(),
            children,
        }
    }
}

impl Default for TexFileResp {
    fn default() -> (r: Self)
        ensures
            r.id == 0 && r.name@.len() == 0 && r.created_time == 0 && r.updated_time == 0
                && r.user_id == 0 && r.doc_status == 1 && r.project_id@.len() == 0 && r.file_type
                == 1 && r.file_id@.len() == 0 && r.parent@.len() == 0 && r.file_path@.len() == 0
                && r.main_flag == 0 && r.yjs_initial == 0 && r.sort == 0,
    {
        TexFileResp {
            id: 0,
            name: String::new(),
            created_time: 0,
            updated_time: 0,
            user_id: 0,
            doc_status: 1,
            project_id: String::new(),
            file_type: 1,
            file_id: String::new(),
            parent: String::new(),
            file_path: String::new(),
            main_flag: 0,
            yjs_initial: 0,
            sort: 0,
        }
    }
}

impl TexFileResp {
    /// The answer for one file.
    pub fn from_file(p: &TexFile) -> (r: Self)
        ensures
            file_resp_of(r, *p),
    {
        TexFileResp {
            id: p.id,
            name: p.name.clone(),
            created_time: p.created_time,
            updated_time: p.updated_time,
            user_id: p.user_id,
            doc_status: p.doc_status,
            project_id: p.project_id.clone(),
            file_type: p.file_type,
            file_path: p.file_path.clone(),
            file_id: p.file_id.clone(),
            parent: p.parent.clone(),
            main_flag: p.main_flag,
            yjs_initial: p.yjs_initial,
            sort: p.sort,
        }
    }
}

impl WsFileDetail {
    /// The detail of a file of a project created at `project_created_time`.
    pub fn from_file(p: &TexFile, project_created_time: i64) -> (r: Self)
        ensures
            r.id == p.id,
            r.file_path@ == p.file_path@,
            r.project_id@ == p.project_id@,
            r.name@ == p.name@,
            r.project_created_time == project_created_time,
            r.created_time == p.created_time,
            r.updated_time == p.updated_time,
            r.file_id@ == p.file_id@,
    {
        WsFileDetail {
            id: p.id,
            file_path: p.file_path.clone(),
            project_id: p.project_id.clone(),
            name: p.name.clone(),
            project_created_time,
            created_time: p.created_time,
            updated_time: p.updated_time,
            file_id: p.file_id.clone(),
        }
    }
}

} // verus!
