//! The batch orchestrator: what is done for one identifier of the input.
//!
//! Each identifier is normalized, looked up in the cache, and either skipped
//! or fetched; a fetch ends with the artifact saved or with nothing
//! downloaded. What happens to one identifier never depends on another.

use crate::cache::{occurs_at, occurs_in, listed, stale, whole_days, CacheError};
use vstd::prelude::*;
use vstd::string::StringExecFns;

verus! {

/// How far the work on one identifier has come.
#[derive(Clone, Copy, Debug, PartialEq, Eq)]
pub enum Progress {
    /// Nothing has been decided yet.
    Pending,
    /// Nothing is requested: a fresh artifact is there, or the identifier
    /// holds no digit.
    Skipped,
    /// The document is to be requested.
    Fetching,
    /// The document was received and written to the cache.
    Saved,
    /// Nothing was downloaded and nothing written.
    FetchFailed,
}

impl Progress {
    /// The steps that the work on one identifier can take: from `Pending` it
    /// is skipped or goes on to fetching, and fetching ends with the artifact
    /// saved or with nothing downloaded. Nothing follows the three ends.
    pub open spec fn leads_to(self, next: Progress) -> bool {
        match self {
            Progress::Pending => next is Skipped || next is Fetching,
            Progress::Fetching => next is Saved || next is FetchFailed,
            _ => false,
        }
    }
}

/// The file name extension of an artifact.
pub open spec fn extension() -> Seq<char> {
    seq!['.', 'j', 's', 'o', 'n']
}

/// The URL from which the document of an identifier is requested.
pub open spec fn url_of(api_url: Seq<char>, nr: Seq<char>) -> Seq<char> {
    api_url + nr
}

/// The path of the artifact of an identifier under the output folder.
pub open spec fn path_of(output_folder: Seq<char>, nr: Seq<char>) -> Seq<char> {
    output_folder + nr + extension()
}

/// What is decided for a normalized identifier `nr`: it is skipped when it is
/// empty, or when an artifact was found and its age could be told and is not
/// beyond the maximum; otherwise it is fetched.
pub open spec fn planned(
    nr: Seq<char>,
    downloaded: bool,
    age: Result<i64, CacheError>,
    maximum_age: i64,
) -> Progress {
    if nr.len() == 0 {
        Progress::Skipped
    } else if downloaded && age is Ok && !stale(age->Ok_0 as int, maximum_age as int) {
        Progress::Skipped
    } else {
        Progress::Fetching
    }
}

/// What a fetch that returned `body` ends in: the artifact is saved unless
/// the body is empty.
pub open spec fn concluded(body: Seq<char>) -> Progress {
    if body.len() > 0 {
        Progress::Saved
    } else {
        Progress::FetchFailed
    }
}

/// Builds the URL to request for a normalized identifier.
pub fn request_url(api_url: &str, nr: &str) -> (url: String)
    ensures
        url@ == url_of(api_url@, nr@),
{
    let mut url = String::from_str(api_url);
    url.append(nr);
    url
}

/// Builds the path of the artifact for a normalized identifier.
pub fn artifact_path(output_folder: &str, nr: &str) -> (path: String)
    ensures
        path@ == path_of(output_folder@, nr@),
{
    proof {
        reveal_strlit(".json");
        assert(".json"@ =~= extension());
    }
    let mut path = String::from_str(output_folder);
    path.append(nr);
    path.append(".json");
    path
}

/// Decides whether a pending normalized identifier is fetched or skipped.
///
/// `downloaded` says whether the cache holds the identifier, and `age` is the
/// age in days of its artifact or the reason why it could not be told; it is
/// looked at only where `downloaded` holds.
pub fn plan(nr: &str, downloaded: bool, age: Result<i64, CacheError>, maximum_age: i64) -> (next: Progress)
    ensures
        next == planned(nr@, downloaded, age, maximum_age),
        Progress::Pending.leads_to(next),
{
    if nr.is_empty() {
        return Progress::Skipped;
    }
    if downloaded {
        if let Ok(days) = age {
            if !crate::cache::is_old(days, maximum_age) {
                return Progress::Skipped;
            }
        }
    }
    Progress::Fetching
}

/// Decides what a finished fetch means for the cache: a body that is not
/// empty is to be saved, an empty one means that nothing was downloaded.
pub fn conclude(body: &str) -> (end: Progress)
    ensures
        end == concluded(body@),
        Progress::Fetching.leads_to(end),
{
    if body.is_empty() {
        Progress::FetchFailed
    } else {
        Progress::Saved
    }
}

/// The path of an identifier's artifact holds the identifier.
pub proof fn lemma_path_holds_nr(output_folder: Seq<char>, nr: Seq<char>)
    ensures
        occurs_in(path_of(output_folder, nr), nr),
{
    let path = path_of(output_folder, nr);
    let at = output_folder.len() as int;
    assert(path.subrange(at, at + nr.len()) =~= nr);
    assert(occurs_at(path, nr, at));
}

/// Once an artifact has been saved, its identifier is skipped for as long as
/// the artifact is no older than the maximum age: a listing that holds the
/// artifact's path, read at a time at which fewer than `maximum_age + 1` days
/// have passed since the artifact was written, leads to no request.
pub proof fn lemma_fresh_artifact_skipped(
    output_folder: Seq<char>,
    nr: Seq<char>,
    paths: Seq<String>,
    at: int,
    now_seconds: i64,
    modified_seconds: i64,
    days: i64,
    maximum_age: i64,
)
    requires
        0 <= at < paths.len(),
        paths[at]@ == path_of(output_folder, nr),
        days == whole_days(now_seconds - modified_seconds),
        now_seconds - modified_seconds < 86400 * (maximum_age + 1),
    ensures
        listed(paths, nr),
        planned(nr, true, Ok(days), maximum_age) == Progress::Skipped,
{
    lemma_path_holds_nr(output_folder, nr);
}

} // verus!
