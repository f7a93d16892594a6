//! Object ids as text, checked by the repository library itself.

use vstd::prelude::*;
use vstd::string::*;
use crate::error::{GitError, GitErrorView};
use crate::text::join2;

verus! {

/// `git2::Oid`, the id of an object, carried through as it is.
#[verifier::external_type_specification]
#[verifier::external_body]
pub struct ExOid(git2::Oid);

/// `git2::Error`, carried from the call that failed to the text made of it.
#[verifier::external_type_specification]
#[verifier::external_body]
pub struct ExLibraryError(git2::Error);

/// `c` is one of the digits `0` to `9` or of the letters `a` to `f`, in
/// either case.
pub open spec fn is_hex_digit(c: char) -> bool {
    let code = c as u32;
    (0x30 <= code <= 0x39) || (0x41 <= code <= 0x46) || (0x61 <= code <= 0x66)
}

/// `text` is an object id or the beginning of one: from one to forty
/// hexadecimal digits.
pub open spec fn is_object_id_text(text: Seq<char>) -> bool {
    &&& 1 <= text.len() <= 40
    &&& forall|i: int| 0 <= i < text.len() ==> is_hex_digit(#[trigger] text[i])
}

/// What is put before the reason when an id is refused.
pub open spec fn invalid_id_prefix() -> Seq<char> {
    "Invalid commit ID: "@
}

/// `git2::Oid::from_str`: parses a hexadecimal object id. It succeeds
/// exactly on a text of one to forty hexadecimal digits; on an empty text, a
/// longer one, or one with another character in it, it fails.
#[verifier::external_body]
fn oid_from_hex(text: &str) -> (r: Result<git2::Oid, git2::Error>)
    ensures
        r is Ok <==> is_object_id_text(text@),
{
    git2::Oid::from_str(text)
}

/// The `Display` text of a `git2::Error`. Nothing is claimed of it.
#[verifier::external_body]
fn describe(e: &git2::Error) -> (r: String) {
    e.to_string()
}

/// The object that `commit_id` names, where it is well formed.
pub fn parse_commit_id(commit_id: &str) -> (r: Result<git2::Oid, GitError>)
    ensures
        r is Ok <==> is_object_id_text(commit_id@),
        r matches Err(e) ==> (e@ matches GitErrorView::RefNotFound { detail }
            && invalid_id_prefix().is_prefix_of(detail)),
{
    match oid_from_hex(commit_id) {
        Ok(oid) => Ok(oid),
        Err(e) => {
            let reason = describe(&e);
            let detail = join2("Invalid commit ID: ", reason.as_str());
            proof {
                assert(detail@.subrange(0, invalid_id_prefix().len() as int)
                    =~= invalid_id_prefix());
            }
            Err(GitError::RefNotFound { detail })
        },
    }
}

/// Whether `text` is an object id or the beginning of one.
pub fn is_object_id(text: &str) -> (r: bool)
    ensures
        r == is_object_id_text(text@),
{
    oid_from_hex(text).is_ok()
}

} // verus!
