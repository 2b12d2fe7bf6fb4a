//! Trusted calls to the external collaborators: the URL-syntax check, the
//! directory-existence check, and the home-directory lookup.

use vstd::prelude::*;

verus! {

/// Whether a string is a well-formed URL, as `url::Url::parse` accepts it.
pub uninterp spec fn url_parseable(s: Seq<char>) -> bool;

/// Relies on `url::Url::parse`: whether a string parses as a URL depends
/// on the string alone.
#[verifier::external_body]
pub(crate) fn url_parses(s: &str) -> (r: bool)
    ensures
        r == url_parseable(s@),
{
    url::Url::parse(s).is_ok()
}

/// Relies on `std::path::Path::is_dir`: asks the filesystem whether the
/// path names an existing directory. The answer depends on what is on
/// disk, so nothing is promised of it.
#[verifier::external_body]
pub(crate) fn path_is_dir(s: &str) -> bool {
    std::path::Path::new(s).is_dir()
}

/// Relies on `home::home_dir`: the platform's home-directory lookup. The
/// answer depends on the environment, so nothing is promised of it.
#[verifier::external_body]
pub(crate) fn home_dir_string() -> Option<String> {
    home::home_dir().map(|p| format!("{}", p.display()))
}

} // verus!
