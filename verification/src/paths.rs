//! File paths held as strings, and the parts of `std::path` the player uses.

use vstd::prelude::*;

verus! {

/// What `Path::extension` gives for a path.
pub uninterp spec fn spec_extension(path: Seq<char>) -> Option<Seq<char>>;

/// What `Path::file_stem` gives for a path.
pub uninterp spec fn spec_file_stem(path: Seq<char>) -> Option<Seq<char>>;

/// What `Path::parent` gives for a path.
pub uninterp spec fn spec_parent(path: Seq<char>) -> Option<Seq<char>>;


/// Whether a path is absolute: on Unix, whether it starts with `/`.
pub open spec fn is_absolute_spec(p: Seq<char>) -> bool {
    p.len() > 0 && p[0] == '/'
}

/// The extension of the file name of `path`, without the dot.
///
/// Calls `Path::extension`; the result is the named result `spec_extension`
/// of the path, and nothing more is claimed of it.
#[verifier::external_body]
pub(crate) fn extension(path: &str) -> (r: Option<String>)
    ensures
        match r {
            Some(e) => spec_extension(path@) == Some(e@),
            None => spec_extension(path@) is None,
        },
{
    std::path::Path::new(path).extension().map(|e| e.to_string_lossy().into_owned())
}

/// The file name of `path` without its extension.
///
/// Calls `Path::file_stem`; the result is the named result `spec_file_stem`
/// of the path, and nothing more is claimed of it.
#[verifier::external_body]
pub(crate) fn file_stem(path: &str) -> (r: Option<String>)
    ensures
        match r {
            Some(e) => spec_file_stem(path@) == Some(e@),
            None => spec_file_stem(path@) is None,
        },
{
    std::path::Path::new(path).file_stem().map(|e| e.to_string_lossy().into_owned())
}

/// The path without its final component.
///
/// Calls `Path::parent`; the result is the named result `spec_parent` of the
/// path, and nothing more is claimed of it.
#[verifier::external_body]
pub(crate) fn parent(path: &str) -> (r: Option<String>)
    ensures
        match r {
            Some(e) => spec_parent(path@) == Some(e@),
            None => spec_parent(path@) is None,
        },
{
    std::path::Path::new(path).parent().map(|e| e.to_string_lossy().into_owned())
}

/// `rel` appended to the path `base`, on Unix: an absolute `rel` replaces
/// `base`; otherwise `rel` follows `base`, with a `/` between them unless
/// `base` is empty or already ends in one.
pub open spec fn join_spec(base: Seq<char>, rel: Seq<char>) -> Seq<char> {
    if is_absolute_spec(rel) {
        rel
    } else if base.len() == 0 || base.last() == '/' {
        base + rel
    } else {
        base + seq!['/'] + rel
    }
}

/// `rel` appended to `base`.
///
/// Calls `Path::join`, which adjoins `rel` as `PathBuf::push` does: an
/// absolute `rel` replaces the path, and otherwise a separator is put in
/// where `base` does not end in one. The contract states that result for
/// Unix paths.
#[verifier::external_body]
pub(crate) fn join(base: &str, rel: &str) -> (r: String)
    ensures
        r@ == join_spec(base@, rel@),
{
    std::path::Path::new(base).join(rel).to_string_lossy().into_owned()
}

/// Whether the path is absolute (on Unix: it starts with `/`).
pub fn is_absolute(path: &str) -> (r: bool)
    ensures
        r == is_absolute_spec(path@),
{
    let v = crate::text::chars_of(path);
    v.len() > 0 && v[0] == '/'
}

} // verus!
