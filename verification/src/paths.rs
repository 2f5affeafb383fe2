//! Path resolution: parent directories, and joining a directory with a file
//! name using the platform separator.

use vstd::prelude::*;
use vstd::string::*;

use crate::errors::RelayError;

verus! {

/// True of the two characters platforms use to separate path segments.
pub open spec fn is_sep_char(c: char) -> bool {
    c == '/' || c == '\\'
}

/// True when the string is non-empty and ends in a path separator.
pub open spec fn ends_with_sep(s: Seq<char>) -> bool {
    s.len() > 0 && is_sep_char(s[s.len() - 1])
}

/// The parent segment of a path string: `None` for a root or an empty path,
/// otherwise the (possibly empty) leading directory part, always a leading
/// slice of the original text.
pub uninterp spec fn parent_of(path: Seq<char>) -> Option<Seq<char>>;

/// The platform's path separator character, fixed for the build.
pub uninterp spec fn platform_sep(u: ()) -> char;

/// True when the path has no usable parent directory: std's parent is
/// either absent (a root, an empty path) or empty (a bare file name with no
/// directory component).
pub open spec fn has_no_parent(path: Seq<char>) -> bool {
    parent_of(path) is None || parent_of(path) == Some(Seq::<char>::empty())
}

/// Relies on std::path::Path::parent: returns the path without its final
/// component as a leading slice of the original text, or None for a root or
/// an empty path. `to_str` cannot fail here because the slice comes from
/// UTF-8 input.
#[verifier::external_body]
fn path_parent(path: &str) -> (r: Option<String>)
    ensures
        r matches Some(d) ==> parent_of(path@) == Some(d@) && d@.len() <= path@.len() && d@
            == path@.subrange(0, d@.len() as int),
        r is None ==> parent_of(path@) is None,
{
    std::path::Path::new(path).parent().and_then(|p| p.to_str()).map(|s| s.to_string())
}

/// Relies on std::path::MAIN_SEPARATOR_STR: the platform's path separator,
/// `"/"` on Unix and `"\"` on Windows.
#[verifier::external_body]
fn main_separator_str() -> (s: &'static str)
    ensures
        s@.len() == 1,
        s@[0] == platform_sep(()),
        is_sep_char(s@[0]),
{
    std::path::MAIN_SEPARATOR_STR
}

/// Resolves the parent directory of `path`, normalized to end with a path
/// separator so the result is directly usable as a directory prefix. A path
/// without a directory component — a root, an empty path, or a bare file
/// name — fails with `PathError`. Otherwise the result is the parent slice
/// of `path`, with the platform separator appended when it does not already
/// end in a separator.
pub fn get_parent_dir(path: &str) -> (r: Result<String, RelayError>)
    ensures
        r is Err <==> has_no_parent(path@),
        r is Err ==> r == Err::<String, RelayError>(RelayError::PathError),
        parent_of(path@) matches Some(d) ==> (if d.len() == 0 {
            r == Err::<String, RelayError>(RelayError::PathError)
        } else {
            r matches Ok(dir) && {
                &&& ends_with_sep(dir@)
                &&& d.len() <= path@.len()
                &&& d == path@.subrange(0, d.len() as int)
                &&& if ends_with_sep(d) {
                    dir@ == d
                } else {
                    dir@ == d.push(platform_sep(()))
                }
            }
        }),
{
    match path_parent(path) {
        None => Err(RelayError::PathError),
        Some(dir) => {
            let n = dir.as_str().unicode_len();
            if n == 0 {
                proof {
                    assert(dir@ =~= Seq::<char>::empty());
                }
                return Err(RelayError::PathError);
            }
            let last = dir.as_str().get_char(n - 1);
            if last == '/' || last == '\\' {
                return Ok(dir);
            }
            let sep = main_separator_str();
            let with_sep = dir.concat(sep);
            proof {
                assert(with_sep@ =~= dir@.push(sep@[0]));
            }
            Ok(with_sep)
        },
    }
}

/// The text of joining `dir` and a relative `name` with the separator
/// `sep`: an empty directory yields the name alone; a directory already
/// ending in a separator character — either `/` or `\`, tested the same on
/// every platform, where std::path::PathBuf::join would recognize only the
/// platform's own — is concatenated directly; otherwise one separator is
/// inserted.
pub open spec fn joined(dir: Seq<char>, name: Seq<char>, sep: char) -> Seq<char> {
    if dir.len() == 0 {
        name
    } else if is_sep_char(dir[dir.len() - 1]) {
        dir + name
    } else {
        dir.push(sep) + name
    }
}

/// Joins a directory and a relative file name, inserting the platform
/// separator where the directory does not already end in one.
pub fn join_path(dir: &str, name: &str) -> (r: String)
    ensures
        r@ == joined(dir@, name@, platform_sep(())),
{
    let n = dir.unicode_len();
    if n == 0 {
        String::from_str(name)
    } else {
        let last = dir.get_char(n - 1);
        if last == '/' || last == '\\' {
            String::from_str(dir).concat(name)
        } else {
            let sep = main_separator_str();
            let r = String::from_str(dir).concat(sep).concat(name);
            proof {
                assert(dir@.push(sep@[0]) =~= dir@ + sep@);
            }
            r
        }
    }
}

} // verus!
