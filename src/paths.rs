use vstd::prelude::*;

verus! {

/// The name of the catalog document, remotely and in the cache.
pub const LIST_FILE_NAME: &'static str = "LiveSplit.AutoSplitters.xml";

/// The directory, under the plugin's configuration directory, that holds
/// the downloaded splitter files.
pub const AUTO_SPLITTERS_DIR: &'static str = "auto-splitters";

/// The path that `std::path::Path::join` makes of `dir` and `name`.
pub uninterp spec fn joined_path(dir: Seq<char>, name: Seq<char>) -> Seq<char>;

/// Relies on `std::path::Path::join`: the path of `name` inside `dir` (or
/// `name` itself where it is absolute), as text.
#[verifier::external_body]
pub(crate) fn join_path(dir: &str, name: &str) -> (r: String)
    ensures
        r@ == joined_path(dir@, name@),
{
    std::path::Path::new(dir).join(name).to_string_lossy().into_owned()
}

/// The directory for downloaded splitter files, inside the plugin's
/// configuration directory `config_dir`.
pub fn get_path(config_dir: &str) -> (r: String)
    ensures
        r@ == joined_path(config_dir@, AUTO_SPLITTERS_DIR@),
{
    join_path(config_dir, AUTO_SPLITTERS_DIR)
}

/// The cache file of the catalog document inside `dir`.
pub fn list_file_path(dir: &str) -> (r: String)
    ensures
        r@ == joined_path(dir@, LIST_FILE_NAME@),
{
    join_path(dir, LIST_FILE_NAME)
}

} // verus!
