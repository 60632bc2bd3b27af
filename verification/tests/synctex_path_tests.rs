use texhub::model::records::TexFile;
use texhub::synctex_path::{
    choose_relative_path, clean_synctex_name, get_file_relative_path, needs_path_lookup,
    resolve_src_file_path,
};

fn file(name: &str, file_path: &str) -> TexFile {
    TexFile {
        id: 1,
        name: name.to_string(),
        created_time: 0,
        updated_time: 0,
        user_id: 1,
        doc_status: 1,
        project_id: "p".to_string(),
        file_type: 1,
        file_id: "f".to_string(),
        parent: "p".to_string(),
        main_flag: 0,
        yjs_initial: 0,
        sort: 0,
        file_path: file_path.to_string(),
    }
}

#[test]
fn clean_name_strips_dot_slash() {
    assert_eq!(clean_synctex_name("./a/./b.tex".to_string()), "a/b.tex");
    assert_eq!(clean_synctex_name("././x.tex".to_string()), "x.tex");
    assert_eq!(clean_synctex_name("main.tex".to_string()), "main.tex");
    assert_eq!(clean_synctex_name("".to_string()), "");
}

#[test]
fn clean_name_matches_std_string_operations() {
    for s in ["../x", "..//", ".../a", "a./b", "./", ".", "x/./y/./z", "./../a"] {
        let expected = s.trim_start_matches("./").replace("./", "");
        assert_eq!(clean_synctex_name(s.to_string()), expected, "input {:?}", s);
    }
}

#[test]
fn relative_path_from_compile_workspace() {
    let r = get_file_relative_path(
        "/tmp/texhub-compile/2026/7/p1/./theory/./intro/intro.tex".to_string(),
        "/opt/data/project/2026/7/p1".to_string(),
        "/tmp/texhub-compile/2026/7/p1",
    );
    assert_eq!(r, "theory/intro/intro.tex");
}

#[test]
fn relative_path_from_storage_dir() {
    let r = get_file_relative_path(
        "/opt/data/project/2026/7/p1/chapters/a.tex".to_string(),
        "/opt/data/project/2026/7/p1".to_string(),
        "/tmp/texhub-compile/2026/7/p1",
    );
    assert_eq!(r, "chapters/a.tex");
}

#[test]
fn relative_path_kept_when_relative() {
    let r = get_file_relative_path(
        "./chapters/intro.tex".to_string(),
        "/opt/data/project/p1".to_string(),
        "/tmp/texhub-compile/p1",
    );
    assert_eq!(r, "chapters/intro.tex");
}

#[test]
fn relative_path_falls_back_to_file_name() {
    let r = get_file_relative_path(
        "/elsewhere/deep/skills.tex".to_string(),
        "/opt/data/project/p1".to_string(),
        "/tmp/texhub-compile/p1",
    );
    assert_eq!(r, "skills.tex");
    let r = get_file_relative_path("/".to_string(), "/a".to_string(), "/b");
    assert_eq!(r, "");
}

#[test]
fn choose_relative_path_order() {
    let r = choose_relative_path(
        "/x/y".to_string(),
        Some("./a".to_string()),
        Some("b".to_string()),
        Some("y".to_string()),
    );
    assert_eq!(r, "a");
    let r = choose_relative_path("/x/y".to_string(), None, Some("./b".to_string()), None);
    assert_eq!(r, "b");
    let r = choose_relative_path("/x/y".to_string(), None, None, Some("y".to_string()));
    assert_eq!(r, "y");
    let r = choose_relative_path("x/./y".to_string(), None, None, Some("y".to_string()));
    assert_eq!(r, "x/y");
}

#[test]
fn lookup_only_for_bare_names() {
    assert!(needs_path_lookup("skills.tex"));
    assert!(!needs_path_lookup("a/skills.tex"));
    assert!(!needs_path_lookup("a\\skills.tex"));
}

#[test]
fn resolve_completes_bare_names() {
    let f = file("skills.tex", "/engineering/intro/base/");
    assert_eq!(resolve_src_file_path("skills.tex", Some(&f)), "engineering/intro/base/skills.tex");
    let root = file("main.tex", "/");
    assert_eq!(resolve_src_file_path("main.tex", Some(&root)), "main.tex");
    assert_eq!(resolve_src_file_path("main.tex", None), "main.tex");
    assert_eq!(resolve_src_file_path("a/main.tex", Some(&f)), "a/main.tex");
}

#[test]
fn workspace_relative_path_comes_back_whole() {
    for proj_dir in ["/tmp/texhub-compile", "/opt/data/project/p1", "/tmp/texhub-compile/p1/theory"] {
        let r = get_file_relative_path(
            "/tmp/texhub-compile/p1/theory/intro/intro.tex".to_string(),
            proj_dir.to_string(),
            "/tmp/texhub-compile/p1",
        );
        assert_eq!(r, "theory/intro/intro.tex");
    }
}
