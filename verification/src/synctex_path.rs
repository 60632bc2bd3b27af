//! Turning the source paths that SyncTeX records into paths inside a project.
//!
//! Compilation runs on a separate render service whose working directory
//! differs from the directory where this server stores projects, so a path in
//! a `.synctex` file may be rooted at either of them, or be relative.
use vstd::prelude::*;
use crate::model::records::TexFile;
use crate::text::{contains_seq, has_char, occurs_at, str_has_char, trim_char, trim_matches_char};

verus! {

/// The path that `std::path::Path::strip_prefix` gives for `path` with
/// `base` removed, or `None` when `base` is not a prefix of `path`
/// (component-wise, as std compares paths).
pub uninterp spec fn path_strip_prefix(path: Seq<char>, base: Seq<char>) -> Option<Seq<char>>;

/// The final component of `path`, as `std::path::Path::file_name` gives it.
pub uninterp spec fn path_file_name(path: Seq<char>) -> Option<Seq<char>>;

/// `Path::strip_prefix` on `path` and `base`, the rest converted back to a
/// string. Claims only that the outcome is the named one: a function of the
/// two paths.
#[verifier::external_body]
fn strip_path_prefix(path: &str, base: &str) -> (r: Option<String>)
    ensures
        match r {
            Some(rel) => path_strip_prefix(path@, base@) == Some(rel@),
            None => path_strip_prefix(path@, base@) is None,
        },
{
    match std::path::Path::new(path).strip_prefix(base) {
        Ok(rel) => Some(rel.to_string_lossy().into_owned()),
        Err(_) => None,
    }
}

/// `Path::is_absolute`. Its documentation: on Unix a path is absolute when it
/// has a root, that is when it begins with `/`.
#[verifier::external_body]
fn path_is_absolute(path: &str) -> (r: bool)
    ensures
        r == (path@.len() > 0 && path@[0] == '/'),
{
    std::path::Path::new(path).is_absolute()
}

/// `Path::file_name`, converted back to a string. Claims only that the
/// outcome is the named one: a function of the path.
#[verifier::external_body]
fn final_path_component(path: &str) -> (r: Option<String>)
    ensures
        match r {
            Some(name) => path_file_name(path@) == Some(name@),
            None => path_file_name(path@) is None,
        },
{
    match std::path::Path::new(path).file_name() {
        Some(name) => Some(name.to_string_lossy().into_owned()),
        None => None,
    }
}

/// `s` with every leading `./` removed (`str::trim_start_matches("./")`).
pub open spec fn trim_leading_dot_slash(s: Seq<char>) -> Seq<char>
    decreases s.len(),
{
    if s.len() >= 2 && s[0] == '.' && s[1] == '/' {
        trim_leading_dot_slash(s.subrange(2, s.len() as int))
    } else {
        s
    }
}

/// `s` with every `./` removed, scanning from the left without overlap
/// (`str::replace("./", "")`).
pub open spec fn remove_dot_slash(s: Seq<char>) -> Seq<char>
    decreases s.len(),
{
    if s.len() < 2 {
        s
    } else if s[0] == '.' && s[1] == '/' {
        remove_dot_slash(s.subrange(2, s.len() as int))
    } else {
        seq![s[0]] + remove_dot_slash(s.drop_first())
    }
}

/// What `clean_synctex_name` makes of a name.
pub open spec fn clean_name(s: Seq<char>) -> Seq<char> {
    remove_dot_slash(trim_leading_dot_slash(s))
}

/// The project-relative path of a source path recorded by SyncTeX, given what
/// the path operations give: stripped of the compile-side root, else of the
/// storage-side root, else the path itself when it is relative, else its
/// final component (empty when it has none).
pub open spec fn relative_path_choice(
    file_full_path: Seq<char>,
    by_workspace: Option<Seq<char>>,
    by_project: Option<Seq<char>>,
    file_name: Option<Seq<char>>,
) -> Seq<char> {
    match by_workspace {
        Some(rel) => clean_name(rel),
        None => match by_project {
            Some(rel) => clean_name(rel),
            None => if !(file_full_path.len() > 0 && file_full_path[0] == '/') {
                clean_name(file_full_path)
            } else {
                match file_name {
                    Some(f) => f,
                    None => Seq::empty(),
                }
            },
        },
    }
}

/// What `get_file_relative_path` returns.
pub open spec fn synctex_relative_path(
    file_full_path: Seq<char>,
    proj_dir: Seq<char>,
    compile_workspace_dir: Seq<char>,
) -> Seq<char> {
    relative_path_choice(
        file_full_path,
        path_strip_prefix(file_full_path, compile_workspace_dir),
        path_strip_prefix(file_full_path, proj_dir),
        path_file_name(file_full_path),
    )
}

proof fn lemma_trim_dot_slash_step(s: Seq<char>, i: int)
    requires
        0 <= i,
        i + 2 <= s.len(),
        s[i] == '.',
        s[i + 1] == '/',
    ensures
        trim_leading_dot_slash(s.subrange(i, s.len() as int)) == trim_leading_dot_slash(
            s.subrange(i + 2, s.len() as int),
        ),
{
    let t = s.subrange(i, s.len() as int);
    assert(t.subrange(2, t.len() as int) =~= s.subrange(i + 2, s.len() as int));
}

proof fn lemma_remove_dot_slash_step(s: Seq<char>, i: int)
    requires
        0 <= i < s.len(),
    ensures
        remove_dot_slash(s.subrange(i, s.len() as int)) == (if i + 2 <= s.len() && s[i] == '.'
            && s[i + 1] == '/' {
            remove_dot_slash(s.subrange(i + 2, s.len() as int))
        } else {
            seq![s[i]] + remove_dot_slash(s.subrange(i + 1, s.len() as int))
        }),
{
    let t = s.subrange(i, s.len() as int);
    if i + 2 <= s.len() {
        assert(t.subrange(2, t.len() as int) =~= s.subrange(i + 2, s.len() as int));
    }
    assert(t.drop_first() =~= s.subrange(i + 1, s.len() as int));
    if t.len() < 2 {
        assert(s.subrange(i + 1, s.len() as int) =~= Seq::<char>::empty());
        assert(t =~= seq![s[i]] + Seq::<char>::empty());
    }
}

/// No `./` occurs anywhere in `s`, position by position.
spec fn free_of_dot_slash(s: Seq<char>) -> bool {
    forall|i: int| 0 <= i < s.len() - 1 ==> !(#[trigger] s[i] == '.' && s[i + 1] == '/')
}

proof fn lemma_free_of_dot_slash(s: Seq<char>)
    requires
        !contains_seq(s, "./"@),
    ensures
        free_of_dot_slash(s),
{
    reveal_strlit("./");
    assert forall|i: int| 0 <= i < s.len() - 1 implies !(#[trigger] s[i] == '.' && s[i + 1] == '/') by {
        if s[i] == '.' && s[i + 1] == '/' {
            assert(s.subrange(i, i + 2) =~= "./"@);
            assert(occurs_at(s, "./"@, i));
        }
    }
}

proof fn lemma_remove_dot_slash_free(s: Seq<char>)
    requires
        free_of_dot_slash(s),
    ensures
        remove_dot_slash(s) == s,
    decreases s.len(),
{
    if s.len() >= 2 {
        let t = s.drop_first();
        assert forall|i: int| 0 <= i < t.len() - 1 implies !(#[trigger] t[i] == '.' && t[i + 1]
            == '/') by {
            assert(t[i] == s[i + 1] && t[i + 1] == s[i + 2]);
        }
        lemma_remove_dot_slash_free(t);
        assert(!(s[0] == '.' && s[1] == '/'));
        assert(seq![s[0]] + t =~= s);
    }
}

/// Cleaning leaves a name in which no `./` occurs as it is.
pub proof fn lemma_clean_name_keeps_plain(s: Seq<char>)
    requires
        !contains_seq(s, "./"@),
    ensures
        clean_name(s) == s,
{
    lemma_free_of_dot_slash(s);
    if s.len() >= 2 {
        assert(!(s[0] == '.' && s[1] == '/'));
    }
    assert(trim_leading_dot_slash(s) == s);
    lemma_remove_dot_slash_free(s);
}

/// When the compile-side root strips off a rest in which no `./` occurs,
/// that rest is the project-relative path, whole, whatever the storage-side
/// root is: the compile-side root is tried first.
pub proof fn lemma_workspace_relative_path_kept(
    file_full_path: Seq<char>,
    proj_dir: Seq<char>,
    compile_workspace_dir: Seq<char>,
    rel: Seq<char>,
)
    requires
        path_strip_prefix(file_full_path, compile_workspace_dir) == Some(rel),
        !contains_seq(rel, "./"@),
    ensures
        synctex_relative_path(file_full_path, proj_dir, compile_workspace_dir) == rel,
{
    lemma_clean_name_keeps_plain(rel);
}

/// Strips leading `./` and then removes every other `./` from a name.
pub fn clean_synctex_name(name: String) -> (r: String)
    ensures
        r@ == clean_name(name@),
{
    let s = name.as_str();
    let n = s.unicode_len();
    let mut i: usize = 0;
    assert(s@.subrange(0, n as int) =~= s@);
    while n - i >= 2 && s.get_char(i) == '.' && s.get_char(i + 1) == '/'
        invariant
            n == s@.len(),
            i <= n,
            trim_leading_dot_slash(s@) == trim_leading_dot_slash(s@.subrange(i as int, n as int)),
        decreases n - i,
    {
        proof {
            lemma_trim_dot_slash_step(s@, i as int);
        }
        i = i + 2;
    }
    let ghost start = i;
    assert(trim_leading_dot_slash(s@) == s@.subrange(i as int, n as int)) by {
        let t = s@.subrange(i as int, n as int);
        if t.len() >= 2 {
            assert(t[0] == s@[i as int] && t[1] == s@[i + 1]);
        }
    }
    let mut out = String::new();
    while i < n
        invariant
            n == s@.len(),
            start <= i <= n,
            remove_dot_slash(s@.subrange(start as int, n as int)) == out@ + remove_dot_slash(
                s@.subrange(i as int, n as int),
            ),
        decreases n - i,
    {
        proof {
            lemma_remove_dot_slash_step(s@, i as int);
        }
        if i + 1 < n && s.get_char(i) == '.' && s.get_char(i + 1) == '/' {
            i = i + 2;
        } else {
            let one = s.substring_char(i, i + 1);
            assert(one@ =~= seq![s@[i as int]]);
            let ghost before = out@;
            out.append(one);
            assert(before + (seq![s@[i as int]] + remove_dot_slash(
                s@.subrange(i + 1, n as int),
            )) =~= out@ + remove_dot_slash(s@.subrange(i + 1, n as int)));
            i = i + 1;
        }
    }
    assert(s@.subrange(n as int, n as int) =~= Seq::<char>::empty());
    assert(out@ + Seq::<char>::empty() =~= out@);
    out
}

/// Chooses the project-relative path from the results of the path
/// operations: the part after the compile-side root, else the part after the
/// storage-side root (each cleaned of `./`), else the cleaned path itself
/// when it is relative, else its final component.
pub fn choose_relative_path(
    file_full_path: String,
    by_workspace: Option<String>,
    by_project: Option<String>,
    file_name: Option<String>,
) -> (r: String)
    ensures
        r@ == relative_path_choice(
            file_full_path@,
            match by_workspace {
                Some(s) => Some(s@),
                None => None,
            },
            match by_project {
                Some(s) => Some(s@),
                None => None,
            },
            match file_name {
                Some(s) => Some(s@),
                None => None,
            },
        ),
{
    match by_workspace {
        Some(rel) => clean_synctex_name(rel),
        None => match by_project {
            Some(rel) => clean_synctex_name(rel),
            None => {
                let absolute = file_full_path.as_str().unicode_len() > 0
                    && file_full_path.as_str().get_char(0) == '/';
                if !absolute {
                    clean_synctex_name(file_full_path)
                } else {
                    match file_name {
                        Some(f) => f,
                        None => String::new(),
                    }
                }
            },
        },
    }
}

/// Converts a source path recorded in a SyncTeX file into a project-relative
/// path. The compile-side root is tried first, because only the full relative
/// path tells apart files of the same name in different folders; then the
/// storage-side root, for projects compiled where they are stored. A relative
/// path is cleaned and returned as it is; an absolute path under neither
/// root falls back to its file name.
pub fn get_file_relative_path(
    file_full_path: String,
    proj_dir: String,
    compile_workspace_dir: &str,
) -> (r: String)
    ensures
        r@ == synctex_relative_path(file_full_path@, proj_dir@, compile_workspace_dir@),
{
    let by_workspace = strip_path_prefix(file_full_path.as_str(), compile_workspace_dir);
    if let Some(rel) = by_workspace {
        return clean_synctex_name(rel);
    }
    let by_project = strip_path_prefix(file_full_path.as_str(), proj_dir.as_str());
    if let Some(rel) = by_project {
        return clean_synctex_name(rel);
    }
    if !path_is_absolute(file_full_path.as_str()) {
        return clean_synctex_name(file_full_path);
    }
    match final_path_component(file_full_path.as_str()) {
        Some(f) => f,
        None => String::new(),
    }
}

/// A name that holds a path separator (`/` or `\`) is already a full relative
/// path; only a bare file name needs looking up in the project's files.
pub open spec fn needs_lookup(file_name: Seq<char>) -> bool {
    !has_char(file_name, '/') && !has_char(file_name, '\\')
}

/// The full relative path of a project file: its folder without surrounding
/// `/`, a `/`, and its name; just the name for a file at the project root.
pub open spec fn file_full_relative_path(file_path: Seq<char>, name: Seq<char>) -> Seq<char> {
    let dir = trim_char(file_path, '/');
    if dir.len() == 0 {
        name
    } else {
        dir + seq!['/'] + name
    }
}

/// The full relative path of a project file is its folder without the
/// surrounding `/`, then exactly one `/`, then its name; a file whose folder
/// is the project root gets just its name.
pub proof fn lemma_full_relative_path_shape(file_path: Seq<char>, name: Seq<char>)
    ensures
        trim_char(file_path, '/').len() == 0 ==> file_full_relative_path(file_path, name) == name,
        trim_char(file_path, '/').len() > 0 ==> {
            let dir = trim_char(file_path, '/');
            let r = file_full_relative_path(file_path, name);
            &&& r.len() == dir.len() + 1 + name.len()
            &&& r.subrange(0, dir.len() as int) == dir
            &&& r[dir.len() as int] == '/'
            &&& r.subrange(dir.len() as int + 1, r.len() as int) == name
        },
{
    let dir = trim_char(file_path, '/');
    if dir.len() > 0 {
        let r = dir + seq!['/'] + name;
        assert(r.subrange(0, dir.len() as int) =~= dir);
        assert(r.subrange(dir.len() as int + 1, r.len() as int) =~= name);
    }
}

/// A folder path as the server stores it, `/` followed by folder names with
/// no `/` at either end (or just `/` for the root), gives the path of a file
/// in it as those folder names, one `/`, and the file's name.
pub proof fn lemma_stored_folder_relative_path(d: Seq<char>, name: Seq<char>)
    requires
        d.len() == 0 || (d[0] != '/' && d.last() != '/'),
    ensures
        d.len() == 0 ==> file_full_relative_path(seq!['/'] + d, name) == name,
        d.len() > 0 ==> file_full_relative_path(seq!['/'] + d, name) == d + seq!['/'] + name,
{
    let p = seq!['/'] + d;
    assert(p.drop_first() =~= d);
    assert(crate::text::trim_start_char(p, '/') == crate::text::trim_start_char(d, '/'));
    if d.len() == 0 {
        assert(crate::text::trim_start_char(d, '/') == d);
        assert(crate::text::trim_end_char(d, '/') == d);
    } else {
        assert(crate::text::trim_start_char(d, '/') == d);
        assert(crate::text::trim_end_char(d, '/') == d);
    }
    assert(trim_char(p, '/') == d);
}

/// Whether `resolve_src_file_path` needs the project's file of that name.
pub fn needs_path_lookup(file_name: &str) -> (r: bool)
    ensures
        r == needs_lookup(file_name@),
{
    !str_has_char(file_name, '/') && !str_has_char(file_name, '\\')
}

/// Completes a file name that SyncTeX gave without its folder, from `found`,
/// the first file of the project with that name. A name that already holds a
/// separator, or that no file of the project has, is returned unchanged.
pub fn resolve_src_file_path(file_name: &str, found: Option<&TexFile>) -> (r: String)
    ensures
        r@ == (if !needs_lookup(file_name@) {
            file_name@
        } else {
            match found {
                Some(f) => file_full_relative_path(f.file_path@, f.name@),
                None => file_name@,
            }
        }),
{
    if !needs_path_lookup(file_name) {
        return String::from_str(file_name);
    }
    match found {
        Some(f) => {
            let dir = trim_matches_char(f.file_path.as_str(), '/');
            if dir.as_str().unicode_len() == 0 {
                f.name.clone()
            } else {
                let slash = "/";
                proof {
                    reveal_strlit("/");
                }
                let mut path = dir;
                path.append(slash);
                path.append(f.name.as_str());
                path
            }
        },
        None => String::from_str(file_name),
    }
}

} // verus!
