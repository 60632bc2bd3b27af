//! Decisions about projects, their files and folders, templates and sharing.
use vstd::prelude::*;
use crate::model::file_resp::FileTreeResp;
use crate::model::project_resp::{proj_resp_of, TexProjResp};
use crate::model::records::{
    TexProjEditor, TexProjFolder, TexProjFolderMap, TexProject, TexProjectAdd, FOLDER_FILE_TYPE,
    PLAIN_FILE_TYPE,
};
use crate::text::{has_char, occurs_at, occurs_at_exec, remove_all_char, remove_char};

verus! {

/// The project among the rows found for a project id: the row when there is
/// exactly one, none when there is none or (wrongly) several.
pub fn pick_single_project(rows: Vec<TexProject>) -> (r: Option<TexProject>)
    ensures
        r == (if rows@.len() == 1 {
            Some(rows@[0])
        } else {
            None::<TexProject>
        }),
{
    let mut rows = rows;
    if rows.len() == 1 {
        rows.pop()
    } else {
        None
    }
}

/// A user's default project folder among the rows found: the first, if any.
pub fn pick_default_folder(rows: Vec<TexProjFolder>) -> (r: Option<TexProjFolder>)
    ensures
        r == (if rows@.len() > 0 {
            Some(rows@[0])
        } else {
            None::<TexProjFolder>
        }),
{
    let mut rows = rows;
    if rows.len() > 0 {
        Some(rows.remove(0))
    } else {
        None
    }
}

/// The role of the first membership row of project `project_id`, if any.
pub open spec fn first_editor_role(editors: Seq<TexProjEditor>, project_id: Seq<char>) -> Option<
    i32,
>
    decreases editors.len(),
{
    if editors.len() == 0 {
        None
    } else if editors[0].project_id@ == project_id {
        Some(editors[0].role_id)
    } else {
        first_editor_role(editors.drop_first(), project_id)
    }
}

/// The role found for a project is that of the first membership row, over
/// all rows, whose project id is the project's: if row `k` has that id and
/// no earlier row does, the role is row `k`'s (a single matching row gives
/// its role); there is none exactly when no row has that id.
pub proof fn lemma_first_editor_role_is_first_match(editors: Seq<TexProjEditor>, project_id: Seq<char>)
    ensures
        forall|k: int|
            0 <= k < editors.len() && (#[trigger] editors[k]).project_id@ == project_id && (forall|
                j: int,
            | 0 <= j < k ==> (#[trigger] editors[j]).project_id@ != project_id) ==> first_editor_role(
                editors,
                project_id,
            ) == Some(editors[k].role_id),
        (forall|j: int| 0 <= j < editors.len() ==> (#[trigger] editors[j]).project_id@ != project_id)
            ==> first_editor_role(editors, project_id) is None,
        first_editor_role(editors, project_id) is None ==> forall|j: int|
            0 <= j < editors.len() ==> (#[trigger] editors[j]).project_id@ != project_id,
    decreases editors.len(),
{
    if editors.len() > 0 {
        let rest = editors.drop_first();
        lemma_first_editor_role_is_first_match(rest, project_id);
        assert forall|k: int|
            0 <= k < editors.len() && (#[trigger] editors[k]).project_id@ == project_id && (forall|
                j: int,
            | 0 <= j < k ==> (#[trigger] editors[j]).project_id@ != project_id) implies first_editor_role(
            editors,
            project_id,
        ) == Some(editors[k].role_id) by {
            if k > 0 {
                assert(editors[0].project_id@ != project_id);
                assert(rest[k - 1] == editors[k]);
                assert forall|j: int| 0 <= j < k - 1 implies (#[trigger] rest[j]).project_id@
                    != project_id by {
                    assert(rest[j] == editors[j + 1]);
                }
            }
        }
        if (forall|j: int| 0 <= j < editors.len() ==> (#[trigger] editors[j]).project_id@ != project_id) {
            assert(editors[0].project_id@ != project_id);
            assert forall|j: int| 0 <= j < rest.len() implies (#[trigger] rest[j]).project_id@
                != project_id by {
                assert(rest[j] == editors[j + 1]);
            }
        }
        if first_editor_role(editors, project_id) is None {
            assert forall|j: int| 0 <= j < editors.len() implies (#[trigger] editors[j]).project_id@
                != project_id by {
                if j > 0 {
                    assert(rest[j - 1] == editors[j]);
                }
            }
        }
    }
}

fn find_editor_role(editors: &Vec<TexProjEditor>, project_id: &String) -> (r: Option<i32>)
    ensures
        r == first_editor_role(editors@, project_id@),
{
    let n = editors.len();
    let mut i: usize = 0;
    assert(editors@.subrange(0, n as int) =~= editors@);
    while i < n
        invariant
            n == editors@.len(),
            i <= n,
            first_editor_role(editors@, project_id@) == first_editor_role(
                editors@.subrange(i as int, n as int),
                project_id@,
            ),
        decreases n - i,
    {
        let ghost rest = editors@.subrange(i as int, n as int);
        assert(rest[0] == editors@[i as int]);
        assert(rest.drop_first() =~= editors@.subrange(i + 1, n as int));
        if editors[i].project_id == *project_id {
            return Some(editors[i].role_id);
        }
        i = i + 1;
    }
    None
}

/// The list entries of `projects`, in order, each with the role of the
/// user's first membership row of that project (0 when there is none).
pub fn assign_editor_roles(projects: &Vec<TexProject>, editors: &Vec<TexProjEditor>) -> (r: Vec<
    TexProjResp,
>)
    ensures
        r@.len() == projects@.len(),
        forall|i: int|
            0 <= i < r@.len() ==> proj_resp_of(#[trigger] r@[i], projects@[i]) && r@[i].role_id
                == match first_editor_role(editors@, projects@[i].project_id@) {
                Some(role) => role,
                None => 0,
            },
{
    let mut out: Vec<TexProjResp> = Vec::new();
    let n = projects.len();
    let mut i: usize = 0;
    while i < n
        invariant
            n == projects@.len(),
            i <= n,
            out@.len() == i,
            forall|k: int|
                0 <= k < i ==> proj_resp_of(#[trigger] out@[k], projects@[k]) && out@[k].role_id
                    == match first_editor_role(editors@, projects@[k].project_id@) {
                    Some(role) => role,
                    None => 0,
                },
        decreases n - i,
    {
        let mut item = TexProjResp::from_project(&projects[i]);
        match find_editor_role(editors, &projects[i].project_id) {
            Some(role) => {
                item.role_id = role;
            },
            None => {},
        }
        out.push(item);
        i = i + 1;
    }
    out
}

/// The project ids of membership rows, in order.
pub fn editor_project_ids(editors: &Vec<TexProjEditor>) -> (r: Vec<String>)
    ensures
        r@.len() == editors@.len(),
        forall|i: int| 0 <= i < r@.len() ==> (#[trigger] r@[i])@ == editors@[i].project_id@,
{
    let mut ids: Vec<String> = Vec::new();
    let mut i: usize = 0;
    while i < editors.len()
        invariant
            i <= editors@.len(),
            ids@.len() == i,
            forall|k: int| 0 <= k < i ==> (#[trigger] ids@[k])@ == editors@[k].project_id@,
        decreases editors@.len() - i,
    {
        ids.push(editors[i].project_id.clone());
        i = i + 1;
    }
    ids
}

/// The project ids of folder rows, in order.
pub fn folder_map_project_ids(maps: &Vec<TexProjFolderMap>) -> (r: Vec<String>)
    ensures
        r@.len() == maps@.len(),
        forall|i: int| 0 <= i < r@.len() ==> (#[trigger] r@[i])@ == maps@[i].project_id@,
{
    let mut ids: Vec<String> = Vec::new();
    let mut i: usize = 0;
    while i < maps.len()
        invariant
            i <= maps@.len(),
            ids@.len() == i,
            forall|k: int| 0 <= k < i ==> (#[trigger] ids@[k])@ == maps@[k].project_id@,
        decreases maps@.len() - i,
    {
        ids.push(maps[i].project_id.clone());
        i = i + 1;
    }
    ids
}

/// The name of a copy of a project: its name followed by `(Copy)`.
pub fn copied_project_name(proj_name: &String) -> (r: String)
    ensures
        r@ == proj_name@ + "(Copy)"@,
{
    let mut name = proj_name.clone();
    name.append("(Copy)");
    name
}

/// The folder a new project is filed under: the one asked for, else the
/// user's default folder.
pub fn target_folder_id(requested: Option<i64>, default_folder_id: i64) -> (r: i64)
    ensures
        r == match requested {
            Some(id) => id,
            None => default_folder_id,
        },
{
    match requested {
        Some(id) => id,
        None => default_folder_id,
    }
}

/// Where a new file or folder is recorded, as a path to compute.
pub enum FilePathPlan {
    /// Exactly this path.
    Fixed(String),
    /// The two parts joined as one path.
    Join(String, String),
}

/// A path plan as plain text: `(false, p, _)` for exactly `p`, `(true, a, b)`
/// for `a` and `b` joined.
pub open spec fn plan_view(plan: FilePathPlan) -> (bool, Seq<char>, Seq<char>) {
    match plan {
        FilePathPlan::Fixed(p) => (false, p@, Seq::empty()),
        FilePathPlan::Join(a, b) => (true, a@, b@),
    }
}

/// The path recorded for a new entry named `name` under the entry whose path
/// is `parent_path` (`None` when the parent is the project itself).
pub open spec fn new_entry_path(parent_path: Option<Seq<char>>, file_type: i32, name: Seq<char>) -> (
    bool,
    Seq<char>,
    Seq<char>,
) {
    match parent_path {
        None => if file_type == FOLDER_FILE_TYPE {
            (false, "/"@ + name, Seq::empty())
        } else {
            (false, "/"@, Seq::empty())
        },
        Some(parent) => if file_type == FOLDER_FILE_TYPE {
            (true, parent, name)
        } else {
            (false, parent, Seq::empty())
        },
    }
}

/// The path recorded for an entry named `name` moved into `dist_path`.
pub open spec fn moved_entry_path(file_type: i32, dist_path: Seq<char>, name: Seq<char>) -> (
    bool,
    Seq<char>,
    Seq<char>,
) {
    if file_type == FOLDER_FILE_TYPE {
        (true, dist_path, name)
    } else {
        (false, dist_path, Seq::empty())
    }
}

/// The path recorded for a new entry named `name` under the entry whose
/// path is `parent_path` (`None` when the parent is the project itself): a
/// folder's path includes its own name, a file's path is its folder's.
pub fn file_path_plan(parent_path: Option<&String>, file_type: i32, name: &String) -> (r:
    FilePathPlan)
    ensures
        plan_view(r) == new_entry_path(
            match parent_path {
                Some(p) => Some(p@),
                None => None,
            },
            file_type,
            name@,
        ),
{
    match parent_path {
        None => {
            if file_type == FOLDER_FILE_TYPE {
                let mut p = String::from_str("/");
                p.append(name.as_str());
                FilePathPlan::Fixed(p)
            } else {
                FilePathPlan::Fixed(String::from_str("/"))
            }
        },
        Some(parent) => {
            if file_type == FOLDER_FILE_TYPE {
                FilePathPlan::Join(parent.clone(), name.clone())
            } else {
                FilePathPlan::Fixed(parent.clone())
            }
        },
    }
}

/// The path recorded for an entry moved into `dist_path`: a folder's path
/// includes its own name, a file's path is the folder it now lies in.
pub fn moved_file_path_plan(file_type: i32, dist_path: &String, file_name: &String) -> (r:
    FilePathPlan)
    ensures
        plan_view(r) == moved_entry_path(file_type, dist_path@, file_name@),
{
    if file_type == FOLDER_FILE_TYPE {
        FilePathPlan::Join(dist_path.clone(), file_name.clone())
    } else {
        FilePathPlan::Fixed(dist_path.clone())
    }
}

/// An entry moved into the folder whose path is `dist_path` is recorded
/// under the path it would have had if it had been created there.
pub proof fn lemma_moved_path_matches_created(file_type: i32, dist_path: Seq<char>, name: Seq<char>)
    ensures
        moved_entry_path(file_type, dist_path, name) == new_entry_path(
            Some(dist_path),
            file_type,
            name,
        ),
{
}

/// The `main_flag` of an entry found on disk in a new project: 1 for the
/// file named as the project's main document, 0 for everything else.
pub fn disk_entry_main_flag(file_type: i32, name: &str, main_name: &str) -> (r: i16)
    ensures
        r == (if file_type == PLAIN_FILE_TYPE && name@ == main_name@ {
            1i16
        } else {
            0i16
        }),
{
    if file_type == PLAIN_FILE_TYPE && str_equal(name, main_name) {
        1
    } else {
        0
    }
}

/// The extension of `path`, as `std::path::Path::extension` gives it: the
/// part of the file name after its last `.`, if the name has one that is not
/// its first character.
pub uninterp spec fn path_extension(path: Seq<char>) -> Option<Seq<char>>;

/// `Path::extension`, converted back to a string. Claims only that the
/// outcome is the named one: a function of the path.
#[verifier::external_body]
fn file_extension(path: &str) -> (r: Option<String>)
    ensures
        match r {
            Some(e) => path_extension(path@) == Some(e@),
            None => path_extension(path@) is None,
        },
{
    match std::path::Path::new(path).extension() {
        Some(e) => Some(e.to_string_lossy().into_owned()),
        None => None,
    }
}

/// `s[a..b]` is one of the pieces of `s` split at `sep`.
pub open spec fn is_field_at(s: Seq<char>, sep: char, a: int, b: int) -> bool {
    &&& 0 <= a <= b <= s.len()
    &&& a == 0 || s[a - 1] == sep
    &&& b == s.len() || s[b] == sep
    &&& forall|k: int| a <= k < b ==> s[k] != sep
}

/// `f` is one of the pieces of `s` split at `sep` (`str::split(sep)`).
pub open spec fn is_split_field(s: Seq<char>, sep: char, f: Seq<char>) -> bool {
    exists|a: int, b: int| is_field_at(s, sep, a, b) && #[trigger] s.subrange(a, b) == f
}

/// Tests whether `f` is one of the comma-separated pieces of `list`.
pub fn list_has_field(list: &str, f: &str) -> (r: bool)
    ensures
        r == is_split_field(list@, ',', f@),
{
    let n = list.unicode_len();
    let m = f.unicode_len();
    let mut start: usize = 0;
    let mut i: usize = 0;
    while i < n
        invariant
            n == list@.len(),
            m == f@.len(),
            start <= i <= n,
            start == 0 || list@[start - 1] == ',',
            forall|k: int| start <= k < i ==> list@[k] != ',',
            forall|a: int, b: int|
                is_field_at(list@, ',', a, b) && b < i ==> #[trigger] list@.subrange(a, b) != f@,
        decreases n - i,
    {
        if list.get_char(i) == ',' {
            if i - start == m && occurs_at_exec(list, f, start) {
                assert(is_field_at(list@, ',', start as int, i as int));
                assert(list@.subrange(start as int, i as int) =~= f@);
                return true;
            }
            proof {
                assert forall|a: int, b: int|
                    is_field_at(list@, ',', a, b) && b < i + 1 implies #[trigger] list@.subrange(
                    a,
                    b,
                ) != f@ by {
                    if b == i {
                        if a < start {
                            assert(list@[start - 1] == ',');
                        }
                        if a > start {
                            assert(list@[a - 1] != ',');
                        }
                        if list@.subrange(a, b) == f@ {
                            assert(occurs_at(list@, f@, start as int));
                        }
                    }
                }
            }
            start = i + 1;
        }
        i = i + 1;
    }
    let last = n - start == m && occurs_at_exec(list, f, start);
    proof {
        assert forall|a: int, b: int| #[trigger] is_field_at(list@, ',', a, b) && b == n implies a
            == start by {
            if a < start {
                assert(list@[start - 1] == ',');
            }
            if a > start {
                assert(list@[a - 1] != ',');
            }
        }
        if last {
            assert(is_field_at(list@, ',', start as int, n as int));
            assert(list@.subrange(start as int, n as int) =~= f@);
        } else {
            assert forall|a: int, b: int|
                is_field_at(list@, ',', a, b) implies #[trigger] list@.subrange(a, b) != f@ by {
                if b == n {
                    assert(a == start);
                    if list@.subrange(a, b) == f@ {
                        assert(occurs_at(list@, f@, start as int));
                    }
                }
            }
        }
    }
    last
}

/// Whether a file's content is synchronised with the collaborative editor,
/// given its name without extension and its extension (`None` when it has
/// none): `LICENSE`, `Makefile` and `README` always are; other files when
/// their extension is in the comma-separated list.
pub open spec fn syncs_with_extension(
    name_without_ext: Seq<char>,
    extension: Option<Seq<char>>,
    sync_file_types: Seq<char>,
) -> bool {
    ||| name_without_ext == "LICENSE"@
    ||| name_without_ext == "Makefile"@
    ||| name_without_ext == "README"@
    ||| extension matches Some(e) && is_split_field(sync_file_types, ',', e)
}

proof fn lemma_field_witness(s: Seq<char>, e: Seq<char>, a: int)
    requires
        0 <= a,
        a + e.len() <= s.len(),
        a == 0 || s[a - 1] == ',',
        a + e.len() == s.len() || s[a + e.len()] == ',',
        !has_char(e, ','),
        s.subrange(a, a + e.len() as int) == e,
    ensures
        is_split_field(s, ',', e),
{
    let b = a + e.len();
    assert forall|k: int| a <= k < b implies s[k] != ',' by {
        assert(s[k] == e[k - a]);
    }
    assert(is_field_at(s, ',', a, b));
}

/// A file is synchronised when its extension is one of the comma-separated
/// fields of the configured list: the first, a middle or the last one, or
/// the only one. Otherwise, unless its name is `LICENSE`, `Makefile` or
/// `README`, it is not: an extension that only occurs inside a field, or
/// across a comma, does not count.
pub proof fn lemma_sync_by_listed_field(
    name_without_ext: Seq<char>,
    e: Seq<char>,
    before: Seq<char>,
    after: Seq<char>,
)
    requires
        !has_char(e, ','),
    ensures
        syncs_with_extension(name_without_ext, Some(e), e),
        syncs_with_extension(name_without_ext, Some(e), e + seq![','] + after),
        syncs_with_extension(name_without_ext, Some(e), before + seq![','] + e),
        syncs_with_extension(name_without_ext, Some(e), before + seq![','] + e + seq![','] + after),
        forall|list: Seq<char>|
            is_split_field(list, ',', e) ==> #[trigger] syncs_with_extension(
                name_without_ext,
                Some(e),
                list,
            ),
        forall|list: Seq<char>|
            #[trigger] syncs_with_extension(name_without_ext, Some(e), list) ==> is_split_field(
                list,
                ',',
                e,
            ) || name_without_ext == "LICENSE"@ || name_without_ext == "Makefile"@
                || name_without_ext == "README"@,
        !syncs_with_extension(name_without_ext, None, e) || name_without_ext == "LICENSE"@
            || name_without_ext == "Makefile"@ || name_without_ext == "README"@,
{
    let c = seq![','];
    let a: int = before.len() as int + 1;
    assert(e.subrange(0, e.len() as int) =~= e);
    lemma_field_witness(e, e, 0);
    let s1 = e + c + after;
    assert(s1.subrange(0, e.len() as int) =~= e);
    lemma_field_witness(s1, e, 0);
    let s2 = before + c + e;
    assert(s2.subrange(a, s2.len() as int) =~= e);
    lemma_field_witness(s2, e, a);
    let s3 = before + c + e + c + after;
    assert(s3.subrange(a, a + e.len()) =~= e);
    lemma_field_witness(s3, e, a);
}

/// Whether the file at `path` is synchronised, its extension being the one
/// `Path::extension` gives.
pub open spec fn syncs_file(
    path: Seq<char>,
    name_without_ext: Seq<char>,
    sync_file_types: Seq<char>,
) -> bool {
    syncs_with_extension(name_without_ext, path_extension(path), sync_file_types)
}

fn str_equal(a: &str, b: &str) -> (r: bool)
    ensures
        r == (a@ == b@),
{
    let n = a.unicode_len();
    if n != b.unicode_len() {
        return false;
    }
    let r = occurs_at_exec(a, b, 0);
    proof {
        if r {
            assert(a@.subrange(0, n as int) =~= a@);
        } else if a@ == b@ {
            assert(a@.subrange(0, n as int) =~= a@);
        }
    }
    r
}

/// Whether a file is synchronised with the collaborative editor, given its
/// name without extension, its extension (`None` when it has none) and the
/// configured comma-separated list of extensions.
pub fn sync_by_extension(name_without_ext: &str, extension: Option<String>, sync_file_types: &str) -> (r:
    bool)
    ensures
        r == syncs_with_extension(
            name_without_ext@,
            match extension {
                Some(e) => Some(e@),
                None => None,
            },
            sync_file_types@,
        ),
{
    if str_equal(name_without_ext, "LICENSE") || str_equal(name_without_ext, "Makefile")
        || str_equal(name_without_ext, "README") {
        return true;
    }
    match extension {
        Some(e) => list_has_field(sync_file_types, e.as_str()),
        None => false,
    }
}

/// Whether the file at `file_full_path`, whose name without extension is
/// `name_without_ext`, is synchronised with the collaborative editor, given
/// the configured comma-separated list of extensions.
pub fn support_sync(file_full_path: &str, name_without_ext: &str, sync_file_types: &str) -> (r:
    bool)
    ensures
        r == syncs_file(file_full_path@, name_without_ext@, sync_file_types@),
{
    sync_by_extension(name_without_ext, file_extension(file_full_path), sync_file_types)
}

/// A sub-directory of a project and when it was last modified.
pub struct DirStamp {
    pub name: String,
    /// Nanoseconds since the Unix epoch.
    pub modified: u128,
}

/// The directory that `Iterator::max_by_key` on the modification times
/// picks: one modified last, and of several, the last in the list.
pub open spec fn is_latest_dir(dirs: Seq<DirStamp>, i: int) -> bool {
    &&& 0 <= i < dirs.len()
    &&& forall|k: int| 0 <= k < dirs.len() ==> (#[trigger] dirs[k]).modified <= dirs[i].modified
    &&& forall|k: int| i < k < dirs.len() ==> (#[trigger] dirs[k]).modified < dirs[i].modified
}

/// The position of the most recently modified directory (the last of them
/// when several share the latest time), none for an empty list.
pub fn latest_directory_index(dirs: &Vec<DirStamp>) -> (r: Option<usize>)
    ensures
        match r {
            None => dirs@.len() == 0,
            Some(i) => is_latest_dir(dirs@, i as int),
        },
{
    let n = dirs.len();
    if n == 0 {
        return None;
    }
    let mut best: usize = 0;
    let mut i: usize = 1;
    while i < n
        invariant
            n == dirs@.len(),
            1 <= i <= n,
            best < i,
            forall|k: int| 0 <= k < i ==> (#[trigger] dirs@[k]).modified <= dirs@[best as int].modified,
            forall|k: int| best < k < i ==> (#[trigger] dirs@[k]).modified < dirs@[best as int].modified,
        decreases n - i,
    {
        if dirs[i].modified >= dirs[best].modified {
            best = i;
        }
        i = i + 1;
    }
    Some(best)
}

/// The name of the most recently modified directory, empty when there is none.
pub fn latest_directory_name(dirs: &Vec<DirStamp>) -> (r: String)
    ensures
        dirs@.len() == 0 ==> r@.len() == 0,
        dirs@.len() > 0 ==> exists|i: int| is_latest_dir(dirs@, i) && r@ == dirs@[i].name@,
{
    match latest_directory_index(dirs) {
        Some(i) => dirs[i].name.clone(),
        None => String::new(),
    }
}

/// The paging of a template list query: the page and size queried, and the
/// page and size reported back.
pub struct TplPaging {
    pub query_page: i64,
    pub query_page_size: i64,
    pub resp_page: i64,
    pub resp_page_size: i64,
}

/// Template paging defaults: page 1; 9 templates per page for the query
/// but 10 in what is reported back, as the server has always done.
pub fn tpl_paging(page_num: Option<i64>, page_size: Option<i64>) -> (r: TplPaging)
    ensures
        r.query_page == match page_num {
            Some(p) => p,
            None => 1,
        },
        r.resp_page == r.query_page,
        r.query_page_size == match page_size {
            Some(s) => s,
            None => 9,
        },
        r.resp_page_size == match page_size {
            Some(s) => s,
            None => 10,
        },
{
    let page = match page_num {
        Some(p) => p,
        None => 1,
    };
    TplPaging {
        query_page: page,
        query_page_size: match page_size {
            Some(s) => s,
            None => 9,
        },
        resp_page: page,
        resp_page_size: match page_size {
            Some(s) => s,
            None => 10,
        },
    }
}

/// The SQL `LIKE` pattern matching names that hold `name`.
pub fn name_like_pattern(name: &str) -> (r: String)
    ensures
        r@ == "%"@ + name@ + "%"@,
{
    let mut p = String::from_str("%");
    p.append(name);
    p.append("%");
    p
}

/// Whether a user may remove collaborators of a project: only its owner
/// may (`owner_user_id` is `None` when the project has no owner row).
pub fn may_delete_share(owner_user_id: Option<i64>, login_user_id: i64) -> (r: bool)
    ensures
        r == (owner_user_id == Some(login_user_id)),
{
    match owner_user_id {
        Some(uid) => uid == login_user_id,
        None => false,
    }
}

/// The largest file, in bytes, that may be uploaded into a project.
pub const MAX_UPLOAD_FILE_SIZE: usize = 1048576;

/// Whether an uploaded file is refused for its size.
pub fn upload_too_large(size: usize) -> (r: bool)
    ensures
        r == (size > MAX_UPLOAD_FILE_SIZE),
{
    size > MAX_UPLOAD_FILE_SIZE
}

/// A project id made from a hyphenated UUID: the UUID without its hyphens.
pub fn compact_project_id(hyphenated: &str) -> (r: String)
    ensures
        r@ == remove_char(hyphenated@, '-'),
{
    remove_all_char(hyphenated, '-')
}

/// A lowercase hexadecimal digit.
pub open spec fn is_lower_hex(c: char) -> bool {
    ('0' <= c && c <= '9') || ('a' <= c && c <= 'f')
}

/// Every character of `s` is a lowercase hexadecimal digit.
pub open spec fn all_lower_hex(s: Seq<char>) -> bool {
    forall|i: int| 0 <= i < s.len() ==> is_lower_hex(#[trigger] s[i])
}

/// The hyphenated text of a UUID: 36 characters, `-` at positions 8, 13,
/// 18 and 23, lowercase hexadecimal digits everywhere else.
pub open spec fn is_hyphenated_uuid(s: Seq<char>) -> bool {
    &&& s.len() == 36
    &&& forall|i: int|
        0 <= i < 36 ==> if i == 8 || i == 13 || i == 18 || i == 23 {
            #[trigger] s[i] == '-'
        } else {
            is_lower_hex(s[i])
        }
}

/// A fresh random UUID in its hyphenated text form (`uuid::Uuid::new_v4`,
/// then `to_string`, which formats it as lowercase hyphenated text). The
/// value is random: only that format is claimed.
#[verifier::external_body]
fn new_uuid_text() -> (r: String)
    ensures
        is_hyphenated_uuid(r@),
{
    uuid::Uuid::new_v4().to_string()
}

proof fn lemma_remove_char_concat(a: Seq<char>, b: Seq<char>, c: char)
    ensures
        remove_char(a + b, c) == remove_char(a, c) + remove_char(b, c),
    decreases a.len(),
{
    if a.len() == 0 {
        assert(a + b =~= b);
        assert(remove_char(a, c) + remove_char(b, c) =~= remove_char(b, c));
    } else {
        assert((a + b).drop_first() =~= a.drop_first() + b);
        lemma_remove_char_concat(a.drop_first(), b, c);
        if a[0] != c {
            assert(seq![a[0]] + (remove_char(a.drop_first(), c) + remove_char(b, c)) =~= (seq![a[0]]
                + remove_char(a.drop_first(), c)) + remove_char(b, c));
        }
    }
}

proof fn lemma_remove_char_hex(s: Seq<char>)
    requires
        all_lower_hex(s),
    ensures
        remove_char(s, '-') == s,
    decreases s.len(),
{
    if s.len() > 0 {
        let t = s.drop_first();
        assert(all_lower_hex(t)) by {
            assert forall|i: int| 0 <= i < t.len() implies is_lower_hex(#[trigger] t[i]) by {
                assert(t[i] == s[i + 1]);
            }
        }
        lemma_remove_char_hex(t);
        assert(is_lower_hex(s[0]));
        assert(seq![s[0]] + t =~= s);
    }
}

proof fn lemma_hex_concat(a: Seq<char>, b: Seq<char>)
    requires
        all_lower_hex(a),
        all_lower_hex(b),
    ensures
        all_lower_hex(a + b),
{
    assert forall|i: int| 0 <= i < (a + b).len() implies is_lower_hex(#[trigger] (a + b)[i]) by {
        if i < a.len() {
            assert((a + b)[i] == a[i]);
        } else {
            assert((a + b)[i] == b[i - a.len()]);
        }
    }
}

proof fn lemma_hex_part(s: Seq<char>, lo: int, hi: int)
    requires
        is_hyphenated_uuid(s),
        (lo == 0 && hi == 8) || (lo == 9 && hi == 13) || (lo == 14 && hi == 18) || (lo == 19
            && hi == 23) || (lo == 24 && hi == 36),
    ensures
        all_lower_hex(s.subrange(lo, hi)),
{
    let p = s.subrange(lo, hi);
    assert forall|i: int| 0 <= i < p.len() implies is_lower_hex(#[trigger] p[i]) by {
        assert(p[i] == s[lo + i]);
    }
}

/// A hyphenated UUID without its hyphens is its 32 hexadecimal digits.
proof fn lemma_uuid_without_hyphens(s: Seq<char>)
    requires
        is_hyphenated_uuid(s),
    ensures
        remove_char(s, '-').len() == 32,
        all_lower_hex(remove_char(s, '-')),
{
    let d = seq!['-'];
    let p1 = s.subrange(0, 8);
    let p2 = s.subrange(9, 13);
    let p3 = s.subrange(14, 18);
    let p4 = s.subrange(19, 23);
    let p5 = s.subrange(24, 36);
    lemma_hex_part(s, 0, 8);
    lemma_hex_part(s, 9, 13);
    lemma_hex_part(s, 14, 18);
    lemma_hex_part(s, 19, 23);
    lemma_hex_part(s, 24, 36);
    assert(s[8] == '-' && s[13] == '-' && s[18] == '-' && s[23] == '-');
    assert(s =~= p1 + d + p2 + d + p3 + d + p4 + d + p5);
    assert(d.drop_first() =~= Seq::<char>::empty());
    assert(d.len() == 1 && d[0] == '-');
    assert(remove_char(d, '-') == remove_char(d.drop_first(), '-'));
    assert(remove_char(Seq::<char>::empty(), '-') == Seq::<char>::empty());
    assert(remove_char(d, '-') =~= Seq::<char>::empty());
    lemma_remove_char_hex(p1);
    lemma_remove_char_hex(p2);
    lemma_remove_char_hex(p3);
    lemma_remove_char_hex(p4);
    lemma_remove_char_hex(p5);
    lemma_remove_char_concat(p1, d, '-');
    lemma_remove_char_concat(p1 + d, p2, '-');
    lemma_remove_char_concat(p1 + d + p2, d, '-');
    lemma_remove_char_concat(p1 + d + p2 + d, p3, '-');
    lemma_remove_char_concat(p1 + d + p2 + d + p3, d, '-');
    lemma_remove_char_concat(p1 + d + p2 + d + p3 + d, p4, '-');
    lemma_remove_char_concat(p1 + d + p2 + d + p3 + d + p4, d, '-');
    lemma_remove_char_concat(p1 + d + p2 + d + p3 + d + p4 + d, p5, '-');
    let r = p1 + p2 + p3 + p4 + p5;
    assert(remove_char(s, '-') =~= r);
    lemma_hex_concat(p1, p2);
    lemma_hex_concat(p1 + p2, p3);
    lemma_hex_concat(p1 + p2 + p3, p4);
    lemma_hex_concat(p1 + p2 + p3 + p4, p5);
}

proof fn lemma_remove_char_absent(s: Seq<char>, c: char)
    ensures
        !has_char(remove_char(s, c), c),
    decreases s.len(),
{
    if s.len() > 0 {
        lemma_remove_char_absent(s.drop_first(), c);
        let rest = remove_char(s.drop_first(), c);
        if s[0] != c {
            assert forall|i: int| 0 <= i < (seq![s[0]] + rest).len() implies (seq![s[0]]
                + rest)[i] != c by {
                if i > 0 {
                    assert((seq![s[0]] + rest)[i] == rest[i - 1]);
                }
            }
        }
    }
}

/// A new project row for a document created from a template: owned by the
/// first user, status 1, template 1, nickname `default`, and a fresh random
/// project id: the 32 lowercase hexadecimal digits of a UUID.
pub fn template_project_add(input_doc: &String, created_ms: i64, updated_ms: i64) -> (r:
    TexProjectAdd)
    ensures
        r.proj_name@ == input_doc@,
        r.created_time == created_ms,
        r.updated_time == updated_ms,
        r.user_id == 1,
        r.proj_status == 1,
        r.template_id == 1,
        r.project_id@.len() == 32,
        all_lower_hex(r.project_id@),
        !has_char(r.project_id@, '-'),
        r.nickname@ == "default"@,
{
    let uuid = new_uuid_text();
    let project_id = compact_project_id(uuid.as_str());
    proof {
        lemma_remove_char_absent(uuid@, '-');
        lemma_uuid_without_hyphens(uuid@);
    }
    TexProjectAdd {
        proj_name: input_doc.clone(),
        created_time: created_ms,
        updated_time: updated_ms,
        user_id: 1,
        proj_status: 1,
        template_id: 1,
        project_id,
        nickname: String::from_str("default"),
    }
}

/// The positions, in order, of the nodes that hang directly under the root
/// `root_id`, and of all the others; the file tree is built from the first
/// as roots with the second as their descendants.
pub fn split_root_nodes(contents: &Vec<FileTreeResp>, root_id: &str) -> (r: (Vec<usize>, Vec<usize>))
    ensures
        forall|k: int|
            #![trigger r.0@[k]]
            0 <= k < r.0@.len() ==> r.0@[k] < contents@.len() && contents@[r.0@[k] as int].parent@
                == root_id@,
        forall|k: int|
            #![trigger r.1@[k]]
            0 <= k < r.1@.len() ==> r.1@[k] < contents@.len() && contents@[r.1@[k] as int].parent@
                != root_id@,
        forall|k1: int, k2: int| 0 <= k1 < k2 < r.0@.len() ==> r.0@[k1] < r.0@[k2],
        forall|k1: int, k2: int| 0 <= k1 < k2 < r.1@.len() ==> r.1@[k1] < r.1@[k2],
        r.0@.len() + r.1@.len() == contents@.len(),
{
    let mut roots: Vec<usize> = Vec::new();
    let mut others: Vec<usize> = Vec::new();
    let n = contents.len();
    let mut i: usize = 0;
    while i < n
        invariant
            n == contents@.len(),
            i <= n,
            roots@.len() + others@.len() == i,
            forall|k: int|
                #![trigger roots@[k]]
                0 <= k < roots@.len() ==> roots@[k] < i && contents@[roots@[k] as int].parent@
                    == root_id@,
            forall|k: int|
                #![trigger others@[k]]
                0 <= k < others@.len() ==> others@[k] < i && contents@[others@[k] as int].parent@
                    != root_id@,
            forall|k1: int, k2: int| 0 <= k1 < k2 < roots@.len() ==> roots@[k1] < roots@[k2],
            forall|k1: int, k2: int| 0 <= k1 < k2 < others@.len() ==> others@[k1] < others@[k2],
        decreases n - i,
    {
        if str_equal(contents[i].parent.as_str(), root_id) {
            roots.push(i);
        } else {
            others.push(i);
        }
        i = i + 1;
    }
    (roots, others)
}

} // verus!
