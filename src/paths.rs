use vstd::prelude::*;

verus! {

/// The final component of a local path, if it has one.
pub uninterp spec fn file_name_of(p: Seq<char>) -> Option<Seq<char>>;

/// Relies on `std::path::Path::file_name`: the last component of the path,
/// or none where the path ends in `..` or is a root or empty. A component of
/// a `&str` is valid UTF-8, so the lossy conversion is exact.
#[verifier::external_body]
pub(crate) fn file_name(p: &str) -> (r: Option<String>)
    ensures
        match r {
            Some(s) => file_name_of(p@) == Some(s@),
            None => file_name_of(p@) is None,
        },
{
    match std::path::Path::new(p).file_name() {
        Some(n) => Some(n.to_string_lossy().into_owned()),
        None => None,
    }
}

/// The local path to which an object of key `key` is downloaded.
pub open spec fn download_path_of(key: Seq<char>) -> Seq<char> {
    "./test/"@ + key
}

/// The local path to which an object of key `key` is downloaded: the key
/// under the directory `./test/`.
pub fn download_path(key: &str) -> (r: String)
    ensures
        r@ == download_path_of(key@),
{
    let dir = String::from_str("./test/");
    dir.concat(key)
}

} // verus!
