use vstd::prelude::*;

verus! {

/// The last component of a path, as `Path::file_name` gives it (none for
/// a path that ends in `..`, or is a root or empty); a function of the
/// path's text.
pub uninterp spec fn spec_file_name(path: Seq<char>) -> Option<Seq<char>>;

/// The extension of a path's last component, as `Path::extension` gives
/// it (the text after its last `.`; none without a `.` or for a leading
/// one); a function of the path's text.
pub uninterp spec fn spec_extension(path: Seq<char>) -> Option<Seq<char>>;

/// Whether `Path`'s equality holds of two path texts (it compares the
/// paths component by component); a function of the two texts.
pub uninterp spec fn spec_paths_equal(a: Seq<char>, b: Seq<char>) -> bool;

/// The last component of a path, through `Path::file_name`. Its contract
/// ties the result to the path's text through `spec_file_name`; which
/// component that is, is left unsaid.
#[verifier::external_body]
pub(crate) fn path_file_name(path: &str) -> (name: Option<String>)
    ensures
        match name {
            Some(n) => spec_file_name(path@) == Some(n@),
            None => spec_file_name(path@) is None,
        },
{
    match std::path::Path::new(path).file_name() {
        Some(n) => Some(n.to_string_lossy().into_owned()),
        None => None,
    }
}

/// The extension of a path, through `Path::extension`. Its contract ties
/// the result to the path's text through `spec_extension`; what the
/// extension is, is left unsaid.
#[verifier::external_body]
pub(crate) fn path_extension(path: &str) -> (ext: Option<String>)
    ensures
        match ext {
            Some(e) => spec_extension(path@) == Some(e@),
            None => spec_extension(path@) is None,
        },
{
    match std::path::Path::new(path).extension() {
        Some(e) => Some(e.to_string_lossy().into_owned()),
        None => None,
    }
}

/// Whether two path texts name equal paths, through `Path`'s `==`. Its
/// contract ties the answer to the two texts through `spec_paths_equal`;
/// the comparison itself is left unsaid.
#[verifier::external_body]
pub(crate) fn paths_equal(a: &str, b: &str) -> (eq: bool)
    ensures
        eq == spec_paths_equal(a@, b@),
{
    std::path::Path::new(a) == std::path::Path::new(b)
}

} // verus!
