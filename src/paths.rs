use vstd::prelude::*;

verus! {

/// True when `c` is an ASCII letter, `A`-`Z` or `a`-`z`.
pub open spec fn is_ascii_letter(c: char) -> bool {
    ('A' <= c && c <= 'Z') || ('a' <= c && c <= 'z')
}

/// A path in drive form: a letter, a colon and a backslash, then anything.
pub open spec fn has_drive_prefix(p: Seq<char>) -> bool {
    p.len() >= 3 && is_ascii_letter(p[0]) && p[1] == ':' && p[2] == '\\'
}

/// Whether `path` starts with a drive letter, a colon and a backslash.
pub fn is_valid_path_format(path: &str) -> (r: bool)
    ensures
        r == has_drive_prefix(path@),
{
    let n = path.unicode_len();
    if n < 3 {
        return false;
    }
    let c0 = path.get_char(0);
    let c1 = path.get_char(1);
    let c2 = path.get_char(2);
    (('A' <= c0 && c0 <= 'Z') || ('a' <= c0 && c0 <= 'z')) && c1 == ':' && c2 == '\\'
}

/// Why a directory cannot be used.
#[derive(Clone, Copy, Debug, PartialEq, Eq, Structural)]
pub enum PathError {
    /// It does not start with a drive letter, a colon and a backslash.
    InvalidFormat,
    /// It exists and is a file.
    NotADirectory,
    /// Nothing exists there.
    Missing,
}

/// Judges a directory from its text and from what the file system says of
/// it: `None` where nothing exists, else whether it is a directory.
pub fn validate_path(path: &str, is_dir: Option<bool>) -> (r: Result<(), PathError>)
    ensures
        !has_drive_prefix(path@) ==> r == Err::<(), PathError>(PathError::InvalidFormat),
        has_drive_prefix(path@) ==> r == match is_dir {
            Some(true) => Ok(()),
            Some(false) => Err(PathError::NotADirectory),
            None => Err(PathError::Missing),
        },
{
    if !is_valid_path_format(path) {
        return Err(PathError::InvalidFormat);
    }
    match is_dir {
        Some(true) => Ok(()),
        Some(false) => Err(PathError::NotADirectory),
        None => Err(PathError::Missing),
    }
}

} // verus!
