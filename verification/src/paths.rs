//! File system paths, and the temporary file beside a configuration file.
//!
//! A `PathBuf` is opaque here. What the standard library computes from one is
//! given a name, and the contracts speak of those names.
use std::path::PathBuf;
use vstd::prelude::*;

verus! {

/// `std::path::PathBuf`, carried as a value.
#[verifier::external_type_specification]
#[verifier::external_body]
pub struct ExPathBuf(PathBuf);

/// `PathBuf::clone` returns an equal path.
pub assume_specification[ <PathBuf as Clone>::clone ](path: &PathBuf) -> (copy: PathBuf)
    ensures
        copy == *path,
;

/// The final component of a path, as `Path::file_name` gives it.
pub uninterp spec fn path_file_name(path: PathBuf) -> Option<PathBuf>;

/// A path without its final component, as `Path::parent` gives it.
pub uninterp spec fn path_parent(path: PathBuf) -> Option<PathBuf>;

/// The text of a path, as `Path::to_string_lossy` gives it.
pub uninterp spec fn path_text(path: PathBuf) -> Seq<char>;

/// A path with a further component, as `Path::join` gives it.
pub uninterp spec fn path_join(path: PathBuf, name: Seq<char>) -> PathBuf;

/// Calls `Path::file_name`. The result depends on the path alone and is named by
/// `path_file_name`; nothing else is claimed of it.
#[verifier::external_body]
fn file_name(path: &PathBuf) -> (name: Option<PathBuf>)
    ensures
        name == path_file_name(*path),
{
    path.file_name().map(PathBuf::from)
}

/// Calls `Path::parent`. The result depends on the path alone and is named by
/// `path_parent`. A path with a file name has a parent: only the empty path and one
/// that ends in a root or a prefix have none, and those have no file name either.
/// Nothing else is claimed of it.
#[verifier::external_body]
fn parent(path: &PathBuf) -> (directory: Option<PathBuf>)
    ensures
        directory == path_parent(*path),
        path_file_name(*path) is Some ==> directory is Some,
{
    path.parent().map(PathBuf::from)
}

/// Calls `Path::to_string_lossy`. The text depends on the path alone and is named
/// by `path_text`; nothing else is claimed of it.
#[verifier::external_body]
fn to_string_lossy(path: &PathBuf) -> (text: String)
    ensures
        text@ == path_text(*path),
{
    path.to_string_lossy().into_owned()
}

/// Calls `Path::join`. The result depends on the path and the text of the added
/// component alone and is named by `path_join`; nothing else is claimed of it.
#[verifier::external_body]
fn join(path: &PathBuf, name: &String) -> (joined: PathBuf)
    ensures
        joined == path_join(*path, name@),
{
    path.join(name)
}

/// The suffix that a temporary file adds to the name of the file it replaces.
pub open spec fn temp_suffix() -> Seq<char> {
    ".tmp"@
}

/// The temporary file for `path`: in the same directory, under the same name with
/// `.tmp` added. There is one for every path with a file name, and for no other one,
/// such as `/` or `..`.
pub open spec fn temp_path_of(path: PathBuf) -> Option<PathBuf> {
    match path_file_name(path) {
        Some(name) => Some(
            path_join(path_parent(path)->0, path_text(name) + temp_suffix()),
        ),
        None => None,
    }
}

/// The name of the temporary file for a file called `name`.
pub fn temp_file_name(name: &str) -> (temp: String)
    ensures
        temp@ == name@ + temp_suffix(),
        temp@ == name@ + ".tmp"@,
{
    let mut temp: String = name.to_owned();
    temp.append(".tmp");
    temp
}

/// The path of the temporary file for `path`, or `None` where the path has no file
/// name.
pub fn temp_path(path: &PathBuf) -> (temp: Option<PathBuf>)
    ensures
        temp == temp_path_of(*path),
        temp is Some <==> path_file_name(*path) is Some,
        temp is Some ==> path_parent(*path) is Some,
{
    match file_name(path) {
        None => None,
        Some(name) => {
            let temp_name = temp_file_name(to_string_lossy(&name).as_str());
            let directory = parent(path).unwrap();
            Some(join(&directory, &temp_name))
        },
    }
}

/// The temporary file of a path with a file name stands in the path's parent, under
/// the file's own name followed by `.tmp`; a path without a file name has none.
pub proof fn temp_file_is_a_sibling(path: PathBuf)
    ensures
        path_file_name(path) is None ==> temp_path_of(path) is None,
        path_file_name(path) matches Some(name) ==> temp_path_of(path) == Some(
            path_join(path_parent(path)->0, path_text(name) + seq!['.', 't', 'm', 'p']),
        ),
{
    reveal_strlit(".tmp");
    assert(temp_suffix() =~= seq!['.', 't', 'm', 'p']);
}

/// The temporary path that is computed is the temporary file's.
pub proof fn temp_path_is_computed(path: PathBuf, temp: Option<PathBuf>)
    requires
        call_ensures(temp_path, (&path,), temp),
    ensures
        temp is Some <==> path_file_name(path) is Some,
        temp is Some ==> temp->0 == path_join(
            path_parent(path)->0,
            path_text(path_file_name(path)->0) + seq!['.', 't', 'm', 'p'],
        ),
{
    temp_file_is_a_sibling(path);
}

/// The name of a temporary file is the file's name followed by `.tmp`, so that files
/// with different names have different temporary files.
pub proof fn temp_name_keeps_the_name(a: &str, b: &str, temp_a: String, temp_b: String)
    requires
        call_ensures(temp_file_name, (a,), temp_a),
        call_ensures(temp_file_name, (b,), temp_b),
    ensures
        temp_a@ == a@ + seq!['.', 't', 'm', 'p'],
        temp_a@ == temp_b@ ==> a@ == b@,
{
    reveal_strlit(".tmp");
    assert(".tmp"@ =~= seq!['.', 't', 'm', 'p']);
    if temp_a@ == temp_b@ {
        assert(temp_a@.len() == a@.len() + 4);
        assert(temp_b@.len() == b@.len() + 4);
        assert(temp_a@.take(a@.len() as int) =~= a@);
        assert(temp_b@.take(b@.len() as int) =~= b@);
    }
}

} // verus!
