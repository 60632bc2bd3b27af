//! Strict validation of the names users give to files and folders.
use vstd::prelude::*;
use crate::text::{has_char, is_white_space, trim_end_ws, trim_start_ws, trim_white_space, trim_ws};

verus! {

/// The longest name, in characters, that a file or folder may have.
pub const MAX_FILE_NAME_LENGTH: usize = 255;

/// Why a name was refused: a stable code for clients and a readable message.
#[derive(Debug, Clone)]
pub struct FileNameValidationError {
    pub code: &'static str,
    pub message: &'static str,
}

/// The four reasons for refusing a name, in the order they are checked.
#[derive(Debug, Clone, Copy, PartialEq, Eq, Structural)]
pub enum FileNameRejection {
    Empty,
    Reserved,
    TooLong,
    InvalidChars,
}

/// ASCII letters and digits.
pub open spec fn is_ascii_alnum(c: char) -> bool {
    ('a' <= c && c <= 'z') || ('A' <= c && c <= 'Z') || ('0' <= c && c <= '9')
}

/// Letters, digits, CJK unified ideographs (U+4E00..=U+9FFF), `_`, `-` and `.`.
pub open spec fn is_allowed_name_char(c: char) -> bool {
    is_ascii_alnum(c) || c == '_' || c == '-' || c == '.' || (0x4e00 <= (c as u32) <= 0x9fff)
}

/// The reason a (trimmed) name is refused, or `None` when it is accepted.
pub open spec fn file_name_rejection(name: Seq<char>) -> Option<FileNameRejection> {
    if name.len() == 0 {
        Some(FileNameRejection::Empty)
    } else if name == seq!['.'] || name == seq!['.', '.'] {
        Some(FileNameRejection::Reserved)
    } else if name.len() > MAX_FILE_NAME_LENGTH {
        Some(FileNameRejection::TooLong)
    } else if !(forall|i: int| 0 <= i < name.len() ==> is_allowed_name_char(#[trigger] name[i])) {
        Some(FileNameRejection::InvalidChars)
    } else {
        None
    }
}

/// The error that `validate_file_name` reports for a reason.
pub open spec fn rejection_error(k: FileNameRejection) -> (Seq<char>, Seq<char>) {
    match k {
        FileNameRejection::Empty => ("INVALID_FILE_NAME"@, "file/folder name is empty"@),
        FileNameRejection::Reserved => (
            "INVALID_FILE_NAME_RESERVED"@,
            "file/folder name cannot be . or .."@,
        ),
        FileNameRejection::TooLong => (
            "INVALID_FILE_NAME_LENGTH"@,
            "file/folder name exceeds 255 characters"@,
        ),
        FileNameRejection::InvalidChars => (
            "INVALID_FILE_NAME_CHARS"@,
            "file/folder name contains invalid characters"@,
        ),
    }
}

/// What `validate_file_name` returns for a raw name: the trimmed name, or
/// the reason it is refused.
pub open spec fn file_name_verdict(raw: Seq<char>) -> Result<Seq<char>, FileNameRejection> {
    match file_name_rejection(trim_ws(raw)) {
        None => Ok(trim_ws(raw)),
        Some(k) => Err(k),
    }
}

/// Tests one character of a name.
pub fn is_allowed_char(c: char) -> (r: bool)
    ensures
        r == is_allowed_name_char(c),
{
    let u = c as u32;
    ('a' <= c && c <= 'z') || ('A' <= c && c <= 'Z') || ('0' <= c && c <= '9') || c == '_' || c
        == '-' || c == '.' || (0x4e00 <= u && u <= 0x9fff)
}

fn rejection(k: FileNameRejection) -> (e: FileNameValidationError)
    ensures
        (e.code@, e.message@) == rejection_error(k),
{
    match k {
        FileNameRejection::Empty => FileNameValidationError {
            code: "INVALID_FILE_NAME",
            message: "file/folder name is empty",
        },
        FileNameRejection::Reserved => FileNameValidationError {
            code: "INVALID_FILE_NAME_RESERVED",
            message: "file/folder name cannot be . or ..",
        },
        FileNameRejection::TooLong => FileNameValidationError {
            code: "INVALID_FILE_NAME_LENGTH",
            message: "file/folder name exceeds 255 characters",
        },
        FileNameRejection::InvalidChars => FileNameValidationError {
            code: "INVALID_FILE_NAME_CHARS",
            message: "file/folder name contains invalid characters",
        },
    }
}

/// Strict file name check: letters, digits, CJK characters, underscore,
/// hyphen and dot; no spaces or other symbols. On success returns the name
/// with surrounding white space removed.
pub fn validate_file_name(raw: &str) -> (r: Result<String, FileNameValidationError>)
    ensures
        match r {
            Ok(name) => file_name_verdict(raw@) == Ok::<Seq<char>, FileNameRejection>(name@),
            Err(e) => file_name_verdict(raw@) matches Err(k) && (e.code@, e.message@)
                == rejection_error(k),
        },
{
    let name = trim_white_space(raw);
    let n = name.as_str().unicode_len();
    if n == 0 {
        return Err(rejection(FileNameRejection::Empty));
    }
    if (n == 1 && name.as_str().get_char(0) == '.') || (n == 2 && name.as_str().get_char(0) == '.'
        && name.as_str().get_char(1) == '.') {
        proof {
            if n == 1 {
                assert(name@ =~= seq!['.']);
            } else {
                assert(name@ =~= seq!['.', '.']);
            }
        }
        return Err(rejection(FileNameRejection::Reserved));
    }
    assert(name@ != seq!['.'] && name@ != seq!['.', '.']) by {
        if name@ == seq!['.'] {
            assert(name@[0] == '.');
        }
        if name@ == seq!['.', '.'] {
            assert(name@[0] == '.' && name@[1] == '.');
        }
    }
    if n > MAX_FILE_NAME_LENGTH {
        return Err(rejection(FileNameRejection::TooLong));
    }
    let mut i: usize = 0;
    while i < n
        invariant
            n == name@.len(),
            name@ == trim_ws(raw@),
            0 < n <= MAX_FILE_NAME_LENGTH,
            name@ != seq!['.'] && name@ != seq!['.', '.'],
            i <= n,
            forall|k: int| 0 <= k < i ==> is_allowed_name_char(#[trigger] name@[k]),
        decreases n - i,
    {
        if !is_allowed_char(name.as_str().get_char(i)) {
            assert(!is_allowed_name_char(name@[i as int]));
            return Err(rejection(FileNameRejection::InvalidChars));
        }
        i = i + 1;
    }
    Ok(name)
}

/// Trimming a second time changes nothing.
pub proof fn lemma_trim_idempotent(s: Seq<char>)
    ensures
        trim_ws(trim_ws(s)) == trim_ws(s),
{
    lemma_trim_start_end_free(s);
    lemma_trim_end_keeps_start_free(trim_start_ws(s));
    lemma_trim_start_of_free(trim_ws(s));
    lemma_trim_end_idempotent(trim_start_ws(s));
}

proof fn lemma_trim_start_end_free(s: Seq<char>)
    ensures
        trim_start_ws(s).len() == 0 || !is_white_space(trim_start_ws(s)[0]),
    decreases s.len(),
{
    if s.len() > 0 && is_white_space(s[0]) {
        lemma_trim_start_end_free(s.drop_first());
    }
}

proof fn lemma_trim_end_keeps_start_free(s: Seq<char>)
    requires
        s.len() == 0 || !is_white_space(s[0]),
    ensures
        trim_end_ws(s).len() == 0 || !is_white_space(
            trim_end_ws(s)[0],
        ),
    decreases s.len(),
{
    if s.len() > 0 && is_white_space(s.last()) {
        let t = s.drop_last();
        if t.len() > 0 {
            assert(t[0] == s[0]);
        }
        lemma_trim_end_keeps_start_free(t);
    }
}

proof fn lemma_trim_start_of_free(s: Seq<char>)
    requires
        s.len() == 0 || !is_white_space(s[0]),
    ensures
        trim_start_ws(s) == s,
{
}

proof fn lemma_trim_end_idempotent(s: Seq<char>)
    ensures
        trim_end_ws(trim_end_ws(s)) == trim_end_ws(s),
    decreases s.len(),
{
    if s.len() > 0 && is_white_space(s.last()) {
        lemma_trim_end_idempotent(s.drop_last());
    }
}

/// A name that validation accepts is accepted again, unchanged: validating
/// the name that `validate_file_name` returned gives back the same name.
pub proof fn lemma_validate_file_name_idempotent(raw: Seq<char>)
    requires
        file_name_verdict(raw) is Ok,
    ensures
        file_name_verdict(trim_ws(raw)) == file_name_verdict(raw),
{
    lemma_trim_idempotent(raw);
}

/// An accepted name holds no space and no path separator, so it always
/// names an entry of the folder it is created in.
pub proof fn lemma_accepted_name_has_no_space_or_separator(raw: Seq<char>)
    requires
        file_name_verdict(raw) is Ok,
    ensures
        !has_char(file_name_verdict(raw)->Ok_0, ' '),
        !has_char(file_name_verdict(raw)->Ok_0, '/'),
        !has_char(file_name_verdict(raw)->Ok_0, '\\'),
{
    let name = trim_ws(raw);
    assert forall|i: int| 0 <= i < name.len() implies name[i] != ' ' && name[i] != '/' && name[i]
        != '\\' by {
        assert(is_allowed_name_char(name[i]));
    }
}

/// Every ASCII letter, every ASCII digit `0`..=`9`, `_`, `-`, `.` and every
/// CJK unified ideograph may stand in a name; so a name of 1 to 255 ASCII
/// letters and digits is accepted as it is.
pub proof fn lemma_letters_and_digits_accepted(name: Seq<char>)
    ensures
        forall|c: char|
            ('0' <= c && c <= '9') || ('a' <= c && c <= 'z') || ('A' <= c && c <= 'Z') || c == '_'
                || c == '-' || c == '.' || (0x4e00 <= (c as u32) && (c as u32) <= 0x9fff)
                ==> #[trigger] is_allowed_name_char(c),
        1 <= name.len() <= 255 && (forall|i: int|
            0 <= i < name.len() ==> ('0' <= #[trigger] name[i] && name[i] <= '9') || ('a' <= name[i]
                && name[i] <= 'z') || ('A' <= name[i] && name[i] <= 'Z')) ==> file_name_verdict(name)
            == Ok::<Seq<char>, FileNameRejection>(name),
{
    if 1 <= name.len() <= 255 && (forall|i: int|
        0 <= i < name.len() ==> ('0' <= #[trigger] name[i] && name[i] <= '9') || ('a' <= name[i]
            && name[i] <= 'z') || ('A' <= name[i] && name[i] <= 'Z')) {
        assert(!is_white_space(name[0]));
        assert(!is_white_space(name.last()));
        assert(trim_start_ws(name) == name);
        assert(trim_end_ws(name) == name);
        assert(name != seq!['.']) by {
            if name == seq!['.'] {
                assert(name[0] == '.');
            }
        }
        assert(name != seq!['.', '.']) by {
            if name == seq!['.', '.'] {
                assert(name[0] == '.');
            }
        }
        assert forall|i: int| 0 <= i < name.len() implies is_allowed_name_char(#[trigger] name[i]) by {}
    }
}

} // verus!
