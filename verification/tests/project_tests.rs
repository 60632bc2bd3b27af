use texhub::project::split_root_nodes;
use texhub::model::project_resp::{CompileResp, LatestCompile, TexProjShareResp};
use texhub::model::file_resp::{FileTreeResp, FolderTreeResp, TexFileResp, WsFileDetail};
use texhub::model::project_resp::{
    CompileQueueAddResp, ProjResp, SrcPosResp, TexProjResp, TexProjectCacheResp, TexTplResp,
};
use texhub::model::records::{
    TexCompQueue, TexFile, TexFolderTree, TexProjEditor, TexProjFolder, TexProjFolderMap,
    TexProject, TexProjectCache, TexTemplate, FOLDER_FILE_TYPE,
};
use texhub::project::{
    assign_editor_roles, compact_project_id, copied_project_name, disk_entry_main_flag,
    editor_project_ids,
    file_path_plan, folder_map_project_ids, latest_directory_index, latest_directory_name,
    list_has_field, may_delete_share, moved_file_path_plan, name_like_pattern,
    pick_default_folder, pick_single_project, support_sync, sync_by_extension, target_folder_id,
    template_project_add, tpl_paging, upload_too_large, DirStamp, FilePathPlan,
};

fn project(id: i64, pid: &str) -> TexProject {
    TexProject {
        id,
        proj_name: format!("proj{}", id),
        created_time: 10,
        updated_time: 20,
        user_id: 3,
        proj_status: 1,
        template_id: 0,
        project_id: pid.to_string(),
        nickname: "nick".to_string(),
    }
}

fn editor(pid: &str, role: i32) -> TexProjEditor {
    TexProjEditor {
        id: 1,
        project_id: pid.to_string(),
        user_id: 3,
        role_id: role,
        collar_status: 0,
        nickname: "nick".to_string(),
        proj_status: 1,
        archive_status: 0,
        created_time: 0,
        updated_time: 0,
    }
}

fn folder(id: i64) -> TexProjFolder {
    TexProjFolder { id, folder_name: "default".to_string(), user_id: 3, proj_type: 1, default_folder: 1, created_time: 0, updated_time: 0 }
}

fn tex_file(name: &str) -> TexFile {
    TexFile {
        id: 8,
        name: name.to_string(),
        created_time: 1,
        updated_time: 2,
        user_id: 3,
        doc_status: 1,
        project_id: "p".to_string(),
        file_type: 1,
        file_id: format!("id-{}", name),
        parent: "p".to_string(),
        main_flag: 1,
        yjs_initial: 1,
        sort: 4,
        file_path: "/".to_string(),
    }
}

#[test]
fn single_project_only_when_unique() {
    assert_eq!(pick_single_project(vec![project(1, "a")]).unwrap().id, 1);
    assert!(pick_single_project(vec![]).is_none());
    assert!(pick_single_project(vec![project(1, "a"), project(2, "a")]).is_none());
}

#[test]
fn default_folder_is_first() {
    assert_eq!(pick_default_folder(vec![folder(4), folder(5)]).unwrap().id, 4);
    assert!(pick_default_folder(vec![]).is_none());
}

#[test]
fn roles_come_from_first_matching_editor() {
    let projects = vec![project(1, "a"), project(2, "b"), project(3, "c")];
    let editors = vec![editor("b", 2), editor("a", 1), editor("b", 7)];
    let r = assign_editor_roles(&projects, &editors);
    assert_eq!(r.len(), 3);
    assert_eq!((r[0].project_id.as_str(), r[0].role_id), ("a", 1));
    assert_eq!((r[1].project_id.as_str(), r[1].role_id), ("b", 2));
    assert_eq!((r[2].project_id.as_str(), r[2].role_id), ("c", 0));
    assert_eq!(r[0].proj_name, "proj1");
    assert_eq!(r[0].nickname, "nick");
}

#[test]
fn project_ids_in_order() {
    assert_eq!(editor_project_ids(&vec![editor("x", 1), editor("y", 2)]), vec!["x", "y"]);
    let maps = vec![TexProjFolderMap { id: 1, project_id: "m".to_string(), folder_id: 2, user_id: 3, proj_type: 1 }];
    assert_eq!(folder_map_project_ids(&maps), vec!["m"]);
}

#[test]
fn copy_name_and_folder_choice() {
    assert_eq!(copied_project_name(&"Thesis".to_string()), "Thesis(Copy)");
    assert_eq!(target_folder_id(Some(9), 1), 9);
    assert_eq!(target_folder_id(None, 1), 1);
}

#[test]
fn file_path_plans() {
    let name = "intro".to_string();
    match file_path_plan(None, FOLDER_FILE_TYPE, &name) {
        FilePathPlan::Fixed(p) => assert_eq!(p, "/intro"),
        _ => panic!(),
    }
    match file_path_plan(None, 1, &name) {
        FilePathPlan::Fixed(p) => assert_eq!(p, "/"),
        _ => panic!(),
    }
    let parent = "/chapters".to_string();
    match file_path_plan(Some(&parent), FOLDER_FILE_TYPE, &name) {
        FilePathPlan::Join(a, b) => assert_eq!((a.as_str(), b.as_str()), ("/chapters", "intro")),
        _ => panic!(),
    }
    match file_path_plan(Some(&parent), 1, &name) {
        FilePathPlan::Fixed(p) => assert_eq!(p, "/chapters"),
        _ => panic!(),
    }
    match moved_file_path_plan(1, &"/b".to_string(), &"x.tex".to_string()) {
        FilePathPlan::Fixed(p) => assert_eq!(p, "/b"),
        _ => panic!(),
    }
    match moved_file_path_plan(FOLDER_FILE_TYPE, &"/b".to_string(), &"sub".to_string()) {
        FilePathPlan::Join(a, b) => assert_eq!((a.as_str(), b.as_str()), ("/b", "sub")),
        _ => panic!(),
    }
}

fn plan_parts(plan: FilePathPlan) -> (bool, String, String) {
    match plan {
        FilePathPlan::Fixed(p) => (false, p, String::new()),
        FilePathPlan::Join(a, b) => (true, a, b),
    }
}

#[test]
fn moved_entry_gets_the_path_of_one_created_there() {
    let dist = "/chapters/one".to_string();
    for (file_type, name) in [(FOLDER_FILE_TYPE, "figures"), (1, "intro.tex")] {
        let name = name.to_string();
        assert_eq!(
            plan_parts(moved_file_path_plan(file_type, &dist, &name)),
            plan_parts(file_path_plan(Some(&dist), file_type, &name))
        );
    }
}

#[test]
fn main_flag_of_entries_on_disk() {
    assert_eq!(disk_entry_main_flag(1, "main.tex", "main.tex"), 1);
    assert_eq!(disk_entry_main_flag(1, "intro.tex", "main.tex"), 0);
    assert_eq!(disk_entry_main_flag(FOLDER_FILE_TYPE, "main.tex", "main.tex"), 0);
}

#[test]
fn comma_list_fields() {
    assert!(list_has_field("tex,bib,cls", "bib"));
    assert!(list_has_field("tex,bib,cls", "tex"));
    assert!(list_has_field("tex,bib,cls", "cls"));
    assert!(!list_has_field("tex,bib,cls", "ib"));
    assert!(!list_has_field("tex,bib,cls", "tex,bib"));
    assert!(list_has_field("a,,b", ""));
    assert!(!list_has_field("a,b", ""));
    assert!(list_has_field("", ""));
}

#[test]
fn sync_by_known_extension() {
    let types = "tex,bib,sty";
    assert!(sync_by_extension("a", Some("tex".to_string()), types));
    assert!(!sync_by_extension("a", Some("png".to_string()), types));
    assert!(!sync_by_extension("a", None, types));
    assert!(sync_by_extension("Makefile", None, types));
}

#[test]
fn sync_support() {
    let types = "tex,bib,sty";
    assert!(support_sync("/p/chapters/a.tex", "a", types));
    assert!(support_sync("/p/refs.bib", "refs", types));
    assert!(!support_sync("/p/figure.png", "figure", types));
    assert!(support_sync("/p/LICENSE", "LICENSE", types));
    assert!(support_sync("/p/Makefile", "Makefile", types));
    assert!(support_sync("/p/README.md", "README", types));
    assert!(!support_sync("/p/.tex", ".tex", types));
}

fn stamp(name: &str, modified: u128) -> DirStamp {
    DirStamp { name: name.to_string(), modified }
}

#[test]
fn latest_directory_is_last_of_newest() {
    let dirs = vec![stamp("a", 5), stamp("b", 9), stamp("c", 9), stamp("d", 1)];
    assert_eq!(latest_directory_index(&dirs), Some(2));
    assert_eq!(latest_directory_name(&dirs), "c");
    assert_eq!(latest_directory_name(&vec![]), "");
    assert_eq!(latest_directory_index(&vec![]), None);
}

#[test]
fn template_paging_defaults() {
    let p = tpl_paging(None, None);
    assert_eq!((p.query_page, p.query_page_size, p.resp_page, p.resp_page_size), (1, 9, 1, 10));
    let p = tpl_paging(Some(3), Some(12));
    assert_eq!((p.query_page, p.query_page_size, p.resp_page, p.resp_page_size), (3, 12, 3, 12));
    assert_eq!(name_like_pattern("beamer"), "%beamer%");
}

#[test]
fn share_and_upload_rules() {
    assert!(may_delete_share(Some(3), 3));
    assert!(!may_delete_share(Some(3), 4));
    assert!(!may_delete_share(None, 3));
    assert!(!upload_too_large(1024 * 1024));
    assert!(upload_too_large(1024 * 1024 + 1));
}

#[test]
fn project_ids_without_hyphens() {
    assert_eq!(compact_project_id("67e55044-10b1-426f-9247-bb680e5fe0c8"), "67e5504410b1426f9247bb680e5fe0c8");
    let add = template_project_add(&"Doc".to_string(), 100, 101);
    assert_eq!(add.project_id.len(), 32);
    assert!(!add.project_id.contains('-'));
    assert!(add.project_id.chars().all(|c| c.is_ascii_digit() || ('a'..='f').contains(&c)));
    assert_eq!((add.user_id, add.proj_status, add.template_id), (1, 1, 1));
    assert_eq!(add.nickname, "default");
    assert_eq!((add.created_time, add.updated_time), (100, 101));
    assert_ne!(template_project_add(&"Doc".to_string(), 1, 1).project_id, add.project_id);
}

#[test]
fn response_conversions() {
    let f = tex_file("main.tex");
    let node = FileTreeResp::from_file(&f);
    assert_eq!((node.id, node.name.as_str(), node.file_id.as_str(), node.main_flag), (8, "main.tex", "id-main.tex", 1));
    assert!(node.children.is_empty());
    assert_eq!(node.get_id(), "id-main.tex");
    assert_eq!(node.get_parent_id(), "p");
    let child = FileTreeResp::from_file(&tex_file("a.tex"));
    let parent = node.convert(vec![child]);
    assert_eq!(parent.children.len(), 1);
    assert_eq!(parent.children[0].name, "a.tex");
    let resp = TexFileResp::from_file(&f);
    assert_eq!((resp.sort, resp.yjs_initial, resp.file_path.as_str()), (4, 1, "/"));
    let ws = WsFileDetail::from_file(&f, 99);
    assert_eq!((ws.project_created_time, ws.name.as_str()), (99, "main.tex"));
    let d = FileTreeResp::default();
    assert_eq!((d.doc_status, d.file_type, d.id), (1, 1, 0));
    let d = TexFileResp::default();
    assert_eq!((d.doc_status, d.file_type, d.sort), (1, 1, 0));
}

#[test]
fn folder_tree_nodes() {
    let folder_row = TexFolderTree {
        id: 2,
        name: "chapters".to_string(),
        project_id: "p".to_string(),
        file_type: FOLDER_FILE_TYPE,
        file_path: "/chapters".to_string(),
        file_id: "f2".to_string(),
        parent: "p".to_string(),
    };
    let node = FolderTreeResp::from_folder(&folder_row);
    assert_eq!((node.get_id().as_str(), node.get_parent_id().as_str()), ("f2", "p"));
    let root = FolderTreeResp::new_virtual_root(&"p".to_string(), vec![node]);
    assert_eq!((root.id, root.name.as_str(), root.file_path.as_str(), root.parent.as_str()), (-1, "/", "/", "/"));
    assert_eq!((root.file_id.as_str(), root.project_id.as_str(), root.file_type), ("p", "p", FOLDER_FILE_TYPE));
    assert_eq!(root.children.len(), 1);
    let d = FolderTreeResp::default();
    assert_eq!((d.file_type, d.id), (1, 0));
}

#[test]
fn project_responses() {
    let p = project(7, "x");
    let r = TexProjResp::from_project(&p);
    assert_eq!((r.id, r.role_id, r.project_id.as_str()), (7, 0, "x"));
    let cache = TexProjectCache { main: p.clone(), main_file: tex_file("main.tex"), tree: vec![tex_file("a.tex"), tex_file("b.tex")] };
    let c = TexProjectCacheResp::from_cache(&cache);
    assert_eq!(c.main.project_id, "x");
    assert_eq!(c.main_file.name, "main.tex");
    assert_eq!(c.tree.iter().map(|t| t.name.as_str()).collect::<Vec<_>>(), vec!["a.tex", "b.tex"]);
    let c2 = TexProjectCacheResp::from_db(&p, TexFileResp::from_file(&tex_file("m.tex")), vec![]);
    assert_eq!((c2.main.id, c2.main_file.name.as_str(), c2.tree.len()), (7, "m.tex", 0));
    let pr = ProjResp::from_req(vec![folder(1)], vec![r]);
    assert_eq!((pr.folders.len(), pr.projects.len()), (1, 1));
    let pos = SrcPosResp::from_parts("a.tex".to_string(), 3, 4);
    assert_eq!((pos.file.as_str(), pos.line, pos.column), ("a.tex", 3, 4));
    let tpl = TexTemplate { id: 1, name: "Beamer".to_string(), preview_url: Some("u".to_string()), template_id: 5, main_file_name: "main.tex".to_string(), template_type: 1, online_status: 1 };
    let t = TexTplResp::from_template(&tpl);
    assert_eq!((t.id, t.name.as_str(), t.preview_url.as_deref(), t.template_id), (1, "Beamer", Some("u"), 5));
    let q = TexCompQueue { id: 3, project_id: "x".to_string(), user_id: 1, created_time: 0, updated_time: 0, comp_status: 0, comp_result: 0, start_time: 0, complete_time: 0, version_no: "v".to_string(), compile_duration_ms: Some(10) };
    let a = CompileQueueAddResp::from_queue(q, 1500);
    assert_eq!((a.queue.id, a.estimated_compile_time), (3, 1500));
}

#[test]
fn root_nodes_split_in_order() {
    let mut a = FileTreeResp::from_file(&tex_file("a"));
    a.parent = "root".to_string();
    let mut b = FileTreeResp::from_file(&tex_file("b"));
    b.parent = "a".to_string();
    let mut c = FileTreeResp::from_file(&tex_file("c"));
    c.parent = "root".to_string();
    let (roots, others) = split_root_nodes(&vec![a, b, c], "root");
    assert_eq!(roots, vec![0, 2]);
    assert_eq!(others, vec![1]);
}

#[test]
fn share_response_and_compile_response() {
    let e = editor("p", 2);
    let s = TexProjShareResp::from_editor(&e);
    assert_eq!((s.collar_status, s.nickname.as_str()), (0, "nick"));
    let q = TexCompQueue::default();
    let c = CompileResp::from_parts(LatestCompile::default(), q);
    assert_eq!((c.comp.path.as_str(), c.queue.id), ("", 0));
}
