//! Paths as character sequences, with `/` as the separator.

use vstd::prelude::*;

verus! {

/// `base` extended by `part` as a path buffer extends itself on Unix: an absolute
/// `part` replaces `base`; otherwise `part` follows `base`, with one separator
/// between them unless `base` is empty or already ends in one.
pub open spec fn pushed(base: Seq<char>, part: Seq<char>) -> Seq<char> {
    if part.len() > 0 && part[0] == '/' {
        part
    } else if base.len() == 0 || base.last() == '/' {
        base + part
    } else {
        base + seq!['/'] + part
    }
}

/// What `std::path::Path::ends_with` answers for `path` and `child`.
pub uninterp spec fn path_ends_with(path: Seq<char>, child: Seq<char>) -> bool;

/// Relies on `std::path::Path::ends_with`: whether the trailing components of
/// `path` are the components of `child`.
#[verifier::external_body]
pub(crate) fn ends_with_components(path: &str, child: &str) -> (r: bool)
    ensures
        r == path_ends_with(path@, child@),
{
    std::path::Path::new(path).ends_with(child)
}

/// Extends `base` by `part` (see [`pushed`]).
pub fn pushed_path(base: &str, part: &str) -> (r: String)
    ensures
        r@ == pushed(base@, part@),
{
    let n = part.unicode_len();
    if n > 0 && part.get_char(0) == '/' {
        return String::from_str(part);
    }
    let m = base.unicode_len();
    let mut r = String::from_str(base);
    if m > 0 && base.get_char(m - 1) != '/' {
        r.append("/");
        proof {
            reveal_strlit("/");
        }
    }
    r.append(part);
    r
}

} // verus!
