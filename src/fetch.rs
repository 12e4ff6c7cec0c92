use vstd::prelude::*;
use crate::catalog::{AutoSplitterList, List};

verus! {

/// reqwest's error of a failed request, carried as it is.
#[verifier::external_type_specification]
#[verifier::external_body]
pub struct ExReqwestError(reqwest::Error);

/// quick-xml's error of a document that does not deserialize, carried as it is.
#[verifier::external_type_specification]
#[verifier::external_body]
pub struct ExDeError(quick_xml::DeError);

/// std's error of a failed read, carried as it is.
#[verifier::external_type_specification]
#[verifier::external_body]
pub struct ExIoError(std::io::Error);

/// Why the catalog could not be had from the remote repository.
pub enum GetAutoSplitterListFromGithubError {
    NetError(reqwest::Error),
    DeserializationError(quick_xml::DeError),
}

/// Why the catalog could not be had from the local cache file.
pub enum GetAutoSplitterListFromFileError {
    IoError(std::io::Error),
    DeserializationError(quick_xml::DeError),
}

/// Where a catalog fetch stands.  The remote repository is asked first; the
/// cache file only when the remote fails.  A fetch that fails both ways
/// keeps both errors.
pub enum ListFetch {
    /// The remote repository is to be asked.
    FromGithub,
    /// The remote failed; the cache file is to be read.
    FromFile(GetAutoSplitterListFromGithubError),
    /// A catalog was loaded, from the remote when `remote_error` is `None`,
    /// else from the cache file, with the error of the remote kept beside it.
    Loaded { list: List, remote_error: Option<GetAutoSplitterListFromGithubError> },
    /// Both sources failed.
    Failed(GetAutoSplitterListFromGithubError, GetAutoSplitterListFromFileError),
}

/// The state after the remote repository answered `r`.
pub open spec fn after_remote(r: Result<List, GetAutoSplitterListFromGithubError>) -> ListFetch {
    match r {
        Ok(list) => ListFetch::Loaded { list, remote_error: None },
        Err(e) => ListFetch::FromFile(e),
    }
}

/// The state after the cache file gave `r`, the remote having failed with `remote`.
pub open spec fn after_local(
    remote: GetAutoSplitterListFromGithubError,
    r: Result<List, GetAutoSplitterListFromFileError>,
) -> ListFetch {
    match r {
        Ok(list) => ListFetch::Loaded { list, remote_error: Some(remote) },
        Err(e) => ListFetch::Failed(remote, e),
    }
}

/// What a finished fetch yields: the catalog, or both errors.
pub open spec fn outcome_of(
    f: ListFetch,
) -> Option<Result<List, (GetAutoSplitterListFromGithubError, GetAutoSplitterListFromFileError)>> {
    match f {
        ListFetch::Loaded { list, .. } => Some(Ok(list)),
        ListFetch::Failed(g, l) => Some(Err((g, l))),
        _ => None,
    }
}

impl ListFetch {
    /// A fetch that has not asked anything yet.
    pub fn start() -> (r: ListFetch)
        ensures
            r is FromGithub,
    {
        ListFetch::FromGithub
    }

    /// Whether the remote repository is to be asked next.
    pub fn wants_remote(&self) -> (r: bool)
        ensures
            r == self is FromGithub,
    {
        matches!(self, ListFetch::FromGithub)
    }

    /// Whether the cache file is to be read next.
    pub fn wants_local(&self) -> (r: bool)
        ensures
            r == self is FromFile,
    {
        matches!(self, ListFetch::FromFile(_))
    }

    /// Takes in the answer of the remote repository.
    pub fn on_remote(self, r: Result<List, GetAutoSplitterListFromGithubError>) -> (next: ListFetch)
        requires
            self is FromGithub,
        ensures
            next == after_remote(r),
    {
        match r {
            Ok(list) => ListFetch::Loaded { list, remote_error: None },
            Err(e) => ListFetch::FromFile(e),
        }
    }

    /// Takes in what reading the cache file gave.
    pub fn on_local(self, r: Result<List, GetAutoSplitterListFromFileError>) -> (next: ListFetch)
        requires
            self is FromFile,
        ensures
            next == after_local(self->FromFile_0, r),
    {
        match self {
            ListFetch::FromFile(remote) => match r {
                Ok(list) => ListFetch::Loaded { list, remote_error: Some(remote) },
                Err(e) => ListFetch::Failed(remote, e),
            },
            _ => ListFetch::FromGithub,
        }
    }

    /// Whether the loaded document came from the remote repository, and so
    /// is to be written to the cache for runs without network access.
    pub fn should_persist(&self) -> (r: bool)
        ensures
            r == (self matches ListFetch::Loaded { remote_error: None, .. }),
    {
        match self {
            ListFetch::Loaded { remote_error: None, .. } => true,
            _ => false,
        }
    }

    /// The catalog, or both errors, of a finished fetch.
    pub fn finish(self) -> (r: Result<List, (GetAutoSplitterListFromGithubError, GetAutoSplitterListFromFileError)>)
        requires
            self is Loaded || self is Failed,
        ensures
            outcome_of(self) == Some(r),
    {
        match self {
            ListFetch::Loaded { list, .. } => Ok(list),
            ListFetch::Failed(g, l) => Err((g, l)),
            _ => Ok(List::empty()),
        }
    }
}

impl List {
    /// A catalog of the entries parsed from `source`, keeping the document.
    pub fn from_source(source: String, inner: AutoSplitterList) -> (r: List)
        ensures
            r.source == source,
            r.inner == inner,
    {
        List { inner, source }
    }
}

/// A remote that fails and a cache that holds a readable catalog give the
/// cached catalog, with the error of the remote kept beside it.
pub proof fn lemma_cache_after_remote_failure(remote: GetAutoSplitterListFromGithubError, cached: List)
    ensures
        after_remote(Err(remote)) is FromFile,
        after_local(remote, Ok(cached)) == (ListFetch::Loaded { list: cached, remote_error: Some(remote) }),
        outcome_of(after_local(remote, Ok(cached))) == Some(
            Ok::<List, (GetAutoSplitterListFromGithubError, GetAutoSplitterListFromFileError)>(cached),
        ),
{
}

/// A remote and a cache that both fail give both errors and no catalog.
pub proof fn lemma_both_failures_kept(remote: GetAutoSplitterListFromGithubError, local: GetAutoSplitterListFromFileError)
    ensures
        outcome_of(after_local(remote, Err(local))) == Some(
            Err::<List, (GetAutoSplitterListFromGithubError, GetAutoSplitterListFromFileError)>((remote, local)),
        ),
{
}

/// A remote that answers gives its catalog, and the cache is not read.
pub proof fn lemma_remote_is_authoritative(list: List)
    ensures
        outcome_of(after_remote(Ok(list))) == Some(
            Ok::<List, (GetAutoSplitterListFromGithubError, GetAutoSplitterListFromFileError)>(list),
        ),
{
}

/// The catalog of a plugin instance: the one fetched, or an empty one when
/// the fetch failed, with the two errors kept for the log.
pub struct AutoSplitterListManager {
    pub list: List,
    pub failure: Option<(GetAutoSplitterListFromGithubError, GetAutoSplitterListFromFileError)>,
}

impl AutoSplitterListManager {
    /// Keeps the outcome of a fetch.
    pub fn new(outcome: Result<List, (GetAutoSplitterListFromGithubError, GetAutoSplitterListFromFileError)>) -> (r: Self)
        ensures
            outcome matches Ok(l) ==> r.list == l && r.failure is None,
            outcome matches Err(e) ==> r.failure == Some(e) && r.list.inner.auto_splitters@.len() == 0
                && r.list.source@.len() == 0,
    {
        match outcome {
            Ok(list) => AutoSplitterListManager { list, failure: None },
            Err(e) => AutoSplitterListManager { list: List::empty(), failure: Some(e) },
        }
    }

    /// Whether the fetch succeeded, or the errors that it ended with.
    pub fn is_ok(&self) -> (r: Result<(), &(GetAutoSplitterListFromGithubError, GetAutoSplitterListFromFileError)>)
        ensures
            r is Ok <==> self.failure is None,
            r matches Err(e) ==> self.failure == Some(*e),
    {
        match &self.failure {
            None => Ok(()),
            Some(e) => Err(e),
        }
    }
}

/// The catalog in use: the fetched one, or an empty one.
pub fn get_list(manager: &AutoSplitterListManager) -> (r: &List)
    ensures
        *r == manager.list,
{
    &manager.list
}

} // verus!
