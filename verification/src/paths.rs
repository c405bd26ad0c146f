//! Where the marker lives: a directory and a file name, joined.
//!
//! Both daemons name the marker by the same rule, and the publisher uses it
//! twice: the file keeps its name and only the directory differs between the
//! local and the remote side.

use vstd::prelude::*;
use vstd::string::*;

verus! {

/// Whether a path starts at the root.
pub open spec fn is_absolute(path: Seq<char>) -> bool {
    path.len() > 0 && path[0] == '/'
}

/// The path of `name` inside `dir`. An absolute `name` stands for itself;
/// otherwise it follows `dir`, with one separator between the two unless
/// `dir` is empty or already ends in one.
pub open spec fn joined(dir: Seq<char>, name: Seq<char>) -> Seq<char> {
    if is_absolute(name) {
        name
    } else if dir.len() == 0 || dir.last() == '/' {
        dir + name
    } else {
        dir + "/"@ + name
    }
}

/// What looking for a path gave, with the reason read as text: whether the
/// path is there, or why that could not be told.
pub open spec fn probe_view(probe: Result<bool, String>) -> Result<bool, Seq<char>> {
    match probe {
        Ok(found) => Ok(found),
        Err(detail) => Err(detail@),
    }
}

/// Joins a directory and a file name.
pub fn join_path(dir: &str, name: &str) -> (path: String)
    ensures
        path@ == joined(dir@, name@),
{
    let name_len = name.unicode_len();
    if name_len > 0 && name.get_char(0) == '/' {
        return String::from_str(name);
    }
    let dir_len = dir.unicode_len();
    let mut path = String::from_str(dir);
    if dir_len > 0 && dir.get_char(dir_len - 1) != '/' {
        path.append("/");
    }
    path.append(name);
    path
}

/// Joining keeps the file name: whatever the directory, the path ends in
/// `name`.
pub proof fn lemma_join_keeps_name(dir: Seq<char>, name: Seq<char>)
    ensures
        joined(dir, name).len() >= name.len(),
        joined(dir, name).skip(joined(dir, name).len() - name.len()) == name,
{
    let path = joined(dir, name);
    if is_absolute(name) {
        assert(path.skip(0) =~= name);
    } else if dir.len() == 0 || dir.last() == '/' {
        assert(path.skip(dir.len() as int) =~= name);
    } else {
        assert(path.skip((dir + "/"@).len() as int) =~= name);
    }
}

/// A relative name is found below its directory: the path starts with `dir`.
pub proof fn lemma_join_keeps_directory(dir: Seq<char>, name: Seq<char>)
    requires
        !is_absolute(name),
    ensures
        joined(dir, name).len() >= dir.len(),
        joined(dir, name).take(dir.len() as int) == dir,
{
    let path = joined(dir, name);
    assert(path.take(dir.len() as int) =~= dir);
}

} // verus!
