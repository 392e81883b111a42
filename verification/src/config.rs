//! Where the application keeps its files: all of them in one directory,
//! `.vapor`, under the user's home directory.

use crate::text::{chars_end_with, to_chars};
use vstd::prelude::*;
use vstd::string::StringExecFns;

verus! {

/// The path of the entry `name` in the directory `dir`: the two are joined
/// by one slash, which is left out where `dir` is empty or ends with one.
pub open spec fn joined_path(dir: Seq<char>, name: Seq<char>) -> Seq<char> {
    if dir.len() == 0 || dir.last() == '/' {
        dir + name
    } else {
        dir + "/"@ + name
    }
}

/// The path of the entry `name` in the directory `dir`.
pub fn join_path(dir: &str, name: &str) -> (r: String)
    ensures
        r@ == joined_path(dir@, name@),
{
    let d = to_chars(dir);
    if d.len() == 0 || chars_end_with(&d, '/') {
        String::from_str(dir).concat(name)
    } else {
        String::from_str(dir).concat("/").concat(name)
    }
}

/// The application's directory under the home directory `home_dir`.
pub fn get_vapor_dir(home_dir: &str) -> (r: String)
    ensures
        r@ == joined_path(home_dir@, ".vapor"@),
{
    join_path(home_dir, ".vapor")
}

/// The bookmark file in the application's directory `vapor_dir`.
pub fn get_bookmarks_path(vapor_dir: &str) -> (r: String)
    ensures
        r@ == joined_path(vapor_dir@, "bookmarks.json"@),
{
    join_path(vapor_dir, "bookmarks.json")
}

/// The history of the shell in the application's directory `vapor_dir`.
pub fn get_shell_history_path(vapor_dir: &str) -> (r: String)
    ensures
        r@ == joined_path(vapor_dir@, "shell_history"@),
{
    join_path(vapor_dir, "shell_history")
}

/// The history of the SQL prompt in the application's directory `vapor_dir`.
pub fn get_repl_history_path(vapor_dir: &str) -> (r: String)
    ensures
        r@ == joined_path(vapor_dir@, "repl_history"@),
{
    join_path(vapor_dir, "repl_history")
}

} // verus!
