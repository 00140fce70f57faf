//! Path derivation and log-line formats shared by the copy engine.
//!
//! Paths are plain strings joined with `/`. The account root of a side
//! is `<install_dir>/<version>/WTF/Account/<account>`, the character
//! root `<account_root>/<realm>/<character>`; saved variables live in a
//! `SavedVariables` folder under either root, and `cache.md5` is the
//! integrity cache deleted after a copy.

use vstd::prelude::*;
use vstd::string::*;

verus! {

/// `a`, a separator, `b`.
pub open spec fn jv(a: Seq<char>, b: Seq<char>) -> Seq<char> {
    a + "/"@ + b
}

/// Joins two path fragments with a separator.
pub fn join(a: &str, b: &str) -> (r: String)
    ensures
        r@ == jv(a@, b@),
{
    let s = a.to_owned();
    let s = s.concat("/");
    s.concat(b)
}

/// The fixed catalog of account-scoped configuration files.
pub open spec fn account_catalog() -> Seq<Seq<char>> {
    seq![
        "bindings-cache.wtf"@,
        "config-cache.wtf"@,
        "macros-cache.txt"@,
        "edit-mode-cache-account.txt"@,
    ]
}

/// The fixed catalog of character-scoped configuration files.
pub open spec fn char_catalog() -> Seq<Seq<char>> {
    seq![
        "AddOns.txt"@,
        "config-cache.wtf"@,
        "layout-local.txt"@,
        "macros-cache.txt"@,
        "edit-mode-cache-character.txt"@,
    ]
}

/// The `i`th account-scoped catalog file name.
pub fn account_file(i: usize) -> (r: String)
    requires
        i < 4,
    ensures
        r@ == account_catalog()[i as int],
{
    let s: &str = if i == 0 {
        "bindings-cache.wtf"
    } else if i == 1 {
        "config-cache.wtf"
    } else if i == 2 {
        "macros-cache.txt"
    } else {
        "edit-mode-cache-account.txt"
    };
    s.to_owned()
}

/// The `i`th character-scoped catalog file name.
pub fn char_file(i: usize) -> (r: String)
    requires
        i < 5,
    ensures
        r@ == char_catalog()[i as int],
{
    let s: &str = if i == 0 {
        "AddOns.txt"
    } else if i == 1 {
        "config-cache.wtf"
    } else if i == 2 {
        "layout-local.txt"
    } else if i == 3 {
        "macros-cache.txt"
    } else {
        "edit-mode-cache-character.txt"
    };
    s.to_owned()
}

/// The saved-variables folder under a root.
pub open spec fn savedvars_of(root: Seq<char>) -> Seq<char> {
    jv(root, "SavedVariables"@)
}

pub fn savedvars_path(root: &str) -> (r: String)
    ensures
        r@ == savedvars_of(root@),
{
    join(root, "SavedVariables")
}

/// The integrity-cache file under a root.
pub open spec fn cache_of(root: Seq<char>) -> Seq<char> {
    jv(root, "cache.md5"@)
}

pub fn cache_path(root: &str) -> (r: String)
    ensures
        r@ == cache_of(root@),
{
    join(root, "cache.md5")
}

/// Whether a file name carries the `.lua` extension: at least one
/// character of stem, then `.lua`.
pub open spec fn is_lua_name(n: Seq<char>) -> bool {
    n.len() >= 5 && n.subrange(n.len() - 4, n.len() as int) == ".lua"@
}

/// The predicate used to filter saved-variables listings.
pub open spec fn lua_pred() -> spec_fn(Seq<char>) -> bool {
    |n: Seq<char>| is_lua_name(n)
}

/// Decides whether a file name carries the `.lua` extension.
pub fn has_lua_ext(name: &str) -> (r: bool)
    ensures
        r == is_lua_name(name@),
{
    proof {
        reveal_strlit(".lua");
    }
    let n = name.unicode_len();
    if n < 5 {
        return false;
    }
    let r = name.get_char(n - 4) == '.' && name.get_char(n - 3) == 'l' && name.get_char(n - 2)
        == 'u' && name.get_char(n - 1) == 'a';
    proof {
        if r {
            assert(name@.subrange(n - 4, n as int) =~= ".lua"@);
        } else {
            assert(name@.subrange(n - 4, n as int) != ".lua"@) by {
                if name@.subrange(n - 4, n as int) == ".lua"@ {
                    assert(name@[n - 4] == '.' && name@[n - 3] == 'l' && name@[n - 2] == 'u'
                        && name@[n - 1] == 'a') by {
                        assert(name@.subrange(n - 4, n as int)[0] == name@[n - 4]);
                        assert(name@.subrange(n - 4, n as int)[1] == name@[n - 3]);
                        assert(name@.subrange(n - 4, n as int)[2] == name@[n - 2]);
                        assert(name@.subrange(n - 4, n as int)[3] == name@[n - 1]);
                    }
                }
            }
        }
    }
    r
}

/// The single line logged when the account-level step is skipped.
pub open spec fn skip_line() -> Seq<char> {
    "skipping account copy."@
}

pub fn skip_line_str() -> (r: String)
    ensures
        r@ == skip_line(),
{
    "skipping account copy.".to_owned()
}

/// The message reported when a copy is requested before source and
/// destination are fully selected.
pub open spec fn not_ready_line() -> Seq<char> {
    "operation not ready for copying!"@
}

pub fn not_ready_line_str() -> (r: String)
    ensures
        r@ == not_ready_line(),
{
    "operation not ready for copying!".to_owned()
}

/// The line logged when one file was copied.
pub open spec fn copied_line(name: Seq<char>) -> Seq<char> {
    "copied \""@ + name + "\""@
}

pub fn copied_line_str(name: &str) -> (r: String)
    ensures
        r@ == copied_line(name@),
{
    let s = "copied \"".to_owned();
    let s = s.concat(name);
    s.concat("\"")
}

/// The line logged when copying one file failed.
pub open spec fn copy_err_line(path: Seq<char>, err: Seq<char>) -> Seq<char> {
    "error copying \""@ + path + "\": "@ + err
}

pub fn copy_err_line_str(path: &str, err: &str) -> (r: String)
    ensures
        r@ == copy_err_line(path@, err@),
{
    let s = "error copying \"".to_owned();
    let s = s.concat(path);
    let s = s.concat("\": ");
    s.concat(err)
}

/// The log line for one copy attempt: a success line naming the file,
/// or an error line naming the path and the underlying cause.
pub open spec fn copy_line(name: Seq<char>, err_path: Seq<char>, res: Result<(), String>) -> Seq<
    char,
> {
    match res {
        Ok(u) => copied_line(name),
        Err(e) => copy_err_line(err_path, e@),
    }
}

/// The line logged when the integrity cache was deleted.
pub open spec fn removed_line(name: Seq<char>) -> Seq<char> {
    "removed \""@ + name + "\""@
}

pub fn removed_line_str(name: &str) -> (r: String)
    ensures
        r@ == removed_line(name@),
{
    let s = "removed \"".to_owned();
    let s = s.concat(name);
    s.concat("\"")
}

/// The line logged when deleting the integrity cache failed.
pub open spec fn remove_err_line(path: Seq<char>, err: Seq<char>) -> Seq<char> {
    "error removing \""@ + path + "\": "@ + err
}

pub fn remove_err_line_str(path: &str, err: &str) -> (r: String)
    ensures
        r@ == remove_err_line(path@, err@),
{
    let s = "error removing \"".to_owned();
    let s = s.concat(path);
    let s = s.concat("\": ");
    s.concat(err)
}

/// The log line for one cache deletion attempt.
pub open spec fn remove_line(name: Seq<char>, path: Seq<char>, res: Result<(), String>) -> Seq<
    char,
> {
    match res {
        Ok(u) => removed_line(name),
        Err(e) => remove_err_line(path, e@),
    }
}

/// The line logged before the destination saved-variables folder is
/// created.
pub open spec fn created_line(path: Seq<char>) -> Seq<char> {
    "destination savedvariables dir missing, creating: \""@ + path + "\""@
}

pub fn created_line_str(path: &str) -> (r: String)
    ensures
        r@ == created_line(path@),
{
    let s = "destination savedvariables dir missing, creating: \"".to_owned();
    let s = s.concat(path);
    s.concat("\"")
}

} // verus!
