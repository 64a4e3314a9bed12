//! File names as `std::path::Path` splits them: the last component of a
//! path, and a file name's stem and extension.

use vstd::prelude::*;
use crate::text::{chars_of, slice_copy, split, string_of};

verus! {

/// The last piece of `pieces` that is neither empty nor `.`.
pub open spec fn last_named(pieces: Seq<Seq<char>>) -> Option<Seq<char>>
    decreases pieces.len(),
{
    if pieces.len() == 0 {
        None
    } else if pieces.last().len() == 0 || pieces.last() == seq!['.'] {
        last_named(pieces.drop_last())
    } else {
        Some(pieces.last())
    }
}

/// What `Path::file_name` gives for `path` on Unix: the path's components
/// are its `/`-separated pieces without empty ones (repeated or trailing
/// slashes) and without `.` ones (a leading `.` is the current directory,
/// which is no file name either); the name is the last component, unless
/// there is none (an empty path, `/`, `.`) or it is `..`.
pub open spec fn path_file_name(path: Seq<char>) -> Option<Seq<char>> {
    match last_named(split(path, '/')) {
        Some(name) => if name == seq!['.', '.'] {
            None
        } else {
            Some(name)
        },
        None => None,
    }
}

/// `Path::new(path).file_name()` and `to_str`: the last component of the
/// path as `path_file_name` describes it; the name of a `&str` path is
/// always valid UTF-8, so `to_str` does not fail.
#[verifier::external_body]
pub(crate) fn file_name_of(path: &str) -> (r: Option<String>)
    ensures
        r is Some <==> path_file_name(path@) is Some,
        r is Some ==> r.unwrap()@ == path_file_name(path@).unwrap(),
{
    let name = std::path::Path::new(path).file_name()?;
    Some(name.to_str()?.to_string())
}

/// Index of the last `.` in `name`, if any.
pub open spec fn last_dot(name: Seq<char>) -> Option<int>
    decreases name.len(),
{
    if name.len() == 0 {
        None
    } else if name.last() == '.' {
        Some(name.len() - 1)
    } else {
        last_dot(name.drop_last())
    }
}

/// A file name split at its last `.`, as `Path` splits it: no split for
/// `..`, for a name without a `.`, or for a name whose only `.` is its
/// first character; otherwise what comes before and after that `.`.
pub open spec fn dot_split(name: Seq<char>) -> Option<(Seq<char>, Seq<char>)> {
    if name == seq!['.', '.'] {
        None
    } else {
        match last_dot(name) {
            None => None,
            Some(i) => if i == 0 {
                None
            } else {
                Some((name.take(i), name.skip(i + 1)))
            },
        }
    }
}

/// `Path::file_stem` of a file name: the part before the last `.`, or the
/// whole name when it has no such split.
pub open spec fn stem_of(name: Seq<char>) -> Seq<char> {
    match dot_split(name) {
        Some((before, _)) => before,
        None => name,
    }
}

/// `Path::extension` of a file name: the part after the last `.`, if the
/// name splits there.
pub open spec fn extension_of(name: Seq<char>) -> Option<Seq<char>> {
    match dot_split(name) {
        Some((_, after)) => Some(after),
        None => None,
    }
}

fn last_dot_exec(name: &[char]) -> (r: Option<usize>)
    ensures
        match last_dot(name@) {
            Some(i) => r == Some(i as usize) && 0 <= i < name@.len(),
            None => r is None,
        },
{
    let mut k: usize = name.len();
    assert(name@.take(k as int) =~= name@);
    while k > 0
        invariant
            k <= name@.len(),
            last_dot(name@) == last_dot(name@.take(k as int)),
        decreases k,
    {
        assert(name@.take(k as int).drop_last() == name@.take(k - 1));
        if name[k - 1] == '.' {
            return Some(k - 1);
        }
        k = k - 1;
    }
    None
}

/// The stem and extension of the file name `name`.
pub fn split_file_name(name: &str) -> (r: (String, Option<String>))
    ensures
        r.0@ == stem_of(name@),
        match extension_of(name@) {
            Some(e) => r.1 is Some && r.1.unwrap()@ == e,
            None => r.1 is None,
        },
{
    let v = chars_of(name);
    let is_dotdot = v.len() == 2 && v[0] == '.' && v[1] == '.';
    if is_dotdot {
        assert(v@ =~= seq!['.', '.']);
        return (string_of(v.as_slice()), None);
    }
    assert(v@ != seq!['.', '.']);
    match last_dot_exec(v.as_slice()) {
        None => (string_of(v.as_slice()), None),
        Some(i) => {
            if i == 0 {
                (string_of(v.as_slice()), None)
            } else {
                let before = slice_copy(v.as_slice(), 0, i);
                let after = slice_copy(v.as_slice(), i + 1, v.len());
                assert(before@ == v@.take(i as int));
                assert(after@ == v@.skip(i + 1));
                (string_of(before.as_slice()), Some(string_of(after.as_slice())))
            }
        },
    }
}

} // verus!
