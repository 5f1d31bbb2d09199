//! File-system paths as text, walked with the standard library's own rules.
//!
//! What a parent or a joined path is depends on the platform's path syntax,
//! which only the standard library knows. The two operations are therefore
//! named here, not defined, and the functions below are stated over the names.

use vstd::prelude::*;
use vstd::string::*;

verus! {

/// The path without its final component, as `std::path::Path::parent` gives
/// it for the platform the library is built for, or `None` where the path
/// has no parent.
pub uninterp spec fn path_parent(path: Seq<char>) -> Option<Seq<char>>;

/// `name` adjoined to `base`, as `std::path::Path::join` gives it for the
/// platform the library is built for.
pub uninterp spec fn path_join(base: Seq<char>, name: Seq<char>) -> Seq<char>;

/// The text of an optional owned string.
pub open spec fn text_of_string(value: Option<String>) -> Option<Seq<char>> {
    match value {
        Some(v) => Some(v@),
        None => None,
    }
}

/// The path reached from `path` by going to the parent `levels` times, or
/// `None` where one of the parents on the way is missing.
pub open spec fn ancestor_spec(path: Seq<char>, levels: nat) -> Option<Seq<char>>
    decreases levels,
{
    if levels == 0 {
        Some(path)
    } else {
        match path_parent(path) {
            Some(parent) => ancestor_spec(parent, (levels - 1) as nat),
            None => None,
        }
    }
}

/// Calls `std::path::Path::parent` on `path`. Trusted: the result is what
/// that function returns, handed back as text. The parent is a part of the
/// path it was taken from, so it is valid UTF-8 whenever `path` is, and the
/// conversion back to text loses nothing.
#[verifier::external_body]
fn parent_of(path: &str) -> (r: Option<String>)
    ensures
        text_of_string(r) == path_parent(path@),
{
    std::path::Path::new(path).parent().map(|p| p.to_string_lossy().into_owned())
}

/// Calls `std::path::Path::join` with `name` on `base`. Trusted: the result
/// is what that function returns, handed back as text. Joining two pieces of
/// valid UTF-8 gives valid UTF-8, so the conversion back to text loses
/// nothing.
#[verifier::external_body]
pub(crate) fn join_to(base: &str, name: &str) -> (r: String)
    ensures
        r@ == path_join(base@, name@),
{
    std::path::Path::new(base).join(name).to_string_lossy().into_owned()
}

/// Goes from `path` to its parent `levels` times.
pub fn ancestor(path: &str, levels: u8) -> (r: Option<String>)
    ensures
        text_of_string(r) == ancestor_spec(path@, levels as nat),
{
    let mut current: String = String::from_str(path);
    let mut left: u8 = levels;
    while left > 0
        invariant
            ancestor_spec(current@, left as nat) == ancestor_spec(path@, levels as nat),
        decreases left,
    {
        match parent_of(current.as_str()) {
            Some(parent) => {
                current = parent;
            },
            None => {
                return None;
            },
        }
        left = left - 1;
    }
    Some(current)
}

} // verus!
