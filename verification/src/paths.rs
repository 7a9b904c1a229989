use vstd::prelude::*;

use vstd::string::StrSliceExecFns;
use vstd::string::StringExecFns;

verus! {

/// The cleaned form of a path: slashes collapsed, `.` elements and
/// resolvable `..` elements eliminated, `"."` for a path emptied by that.
/// The exact sequence is what `path_clean` computes from the characters.
pub uninterp spec fn cleaned_of(path: Seq<char>) -> Seq<char>;

/// Relies on path_clean::clean: a purely lexical transform of the path, so
/// the result depends on the path's characters alone; its documentation has
/// an emptied path come back as ".", so the result is never empty. Every
/// component of the cleaned path is a slice of the UTF-8 input or a literal
/// ".", so the conversion back from an OS string cannot fail.
#[verifier::external_body]
fn clean_str(path: &str) -> (r: String)
    ensures
        r@ == cleaned_of(path@),
        r@.len() > 0,
{
    match path_clean::clean(path).into_os_string().into_string() {
        Ok(s) => s,
        Err(_) => String::new(),
    }
}

/// Where a possibly-relative path points from the given working directory:
/// an absolute path (leading '/') stands alone, anything else is appended
/// to the working directory.
pub open spec fn joined_path(cwd: Seq<char>, local: Seq<char>) -> Seq<char> {
    if local.len() > 0 && local[0] == '/' {
        local
    } else {
        (cwd + "/"@) + local
    }
}

/// Resolves a user-supplied, possibly-relative path against the given
/// working directory and cleans the outcome, so that paths naming the same
/// file compare equal in the recency ledger. The caller supplies the
/// working directory; this function touches nothing outside its arguments.
pub fn get_abs_path_from(cwd: &str, local_path_str: &str) -> (r: String)
    ensures
        r@ == cleaned_of(joined_path(cwd@, local_path_str@)),
        r@.len() > 0,
{
    let is_absolute = local_path_str.unicode_len() > 0 && local_path_str.get_char(0) == '/';
    if is_absolute {
        clean_str(local_path_str)
    } else {
        let joined = cwd.to_owned().concat("/").concat(local_path_str);
        clean_str(joined.as_str())
    }
}

} // verus!
