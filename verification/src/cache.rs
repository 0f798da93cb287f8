//! The cache store: which identifiers already have an artifact on disk, and
//! how old an artifact is.
//!
//! The directory walk and the file metadata are read by the caller. The
//! functions here work on what was read: the paths found under the output
//! folder and the two timestamps, in seconds since the epoch.

use vstd::prelude::*;

verus! {

/// Whole days contained in a number of seconds, rounded towards negative
/// infinity.
pub open spec fn whole_days(seconds: int) -> int {
    seconds / 86400
}

/// Converts an age in seconds to whole days. The result is never rounded up:
/// it is the largest number of days that is not longer than `seconds`.
pub fn age_in_days(seconds: i64) -> (days: i64)
    ensures
        days == whole_days(seconds as int),
        days * 86400 <= seconds < days * 86400 + 86400,
{
    if seconds >= 0 {
        let age_in_minutes: i64 = seconds / 60;
        let age_in_hours: i64 = age_in_minutes / 60;
        age_in_hours / 24
    } else {
        let short_of_zero: i64 = -(seconds + 1);
        let age_in_minutes: i64 = short_of_zero / 60;
        let age_in_hours: i64 = age_in_minutes / 60;
        -(age_in_hours / 24) - 1
    }
}

/// Why the age of an artifact could not be told.
#[derive(Clone, Copy, Debug, PartialEq, Eq)]
pub enum CacheError {
    /// There is no file at the artifact's path.
    NotFound,
}

/// Whole days in a span of seconds that is the difference of two `i64` and
/// may itself be too wide for one.
fn wide_days(seconds: i128) -> (days: i64)
    requires
        -0x1_0000_0000_0000_0000 <= seconds <= 0x1_0000_0000_0000_0000,
    ensures
        days == whole_days(seconds as int),
{
    if seconds >= 0 {
        let days: i128 = seconds / 86400;
        days as i64
    } else {
        let short_of_zero: i128 = -(seconds + 1);
        let days: i128 = -(short_of_zero / 86400) - 1;
        days as i64
    }
}

/// Tells the age of an artifact in whole days from the current time and the
/// artifact's last-modification time, both in seconds since the epoch, as the
/// caller read them. `None` stands for a path at which no file exists: its
/// age is `NotFound`.
pub fn get_age_of_file(now_seconds: i64, modified_seconds: Option<i64>) -> (age: Result<
    i64,
    CacheError,
>)
    ensures
        match modified_seconds {
            Some(modified) => age is Ok && age->Ok_0 == whole_days(now_seconds - modified),
            None => age == Err::<i64, CacheError>(CacheError::NotFound),
        },
{
    match modified_seconds {
        Some(modified) => match now_seconds.checked_sub(modified) {
            Some(span) => Ok(age_in_days(span)),
            None => Ok(wide_days(now_seconds as i128 - modified as i128)),
        },
        None => Err(CacheError::NotFound),
    }
}

/// An artifact is stale when it is strictly older than the maximum age, so
/// one that is exactly `maximum_age` days old is still fresh.
pub open spec fn stale(age_of_file: int, maximum_age: int) -> bool {
    age_of_file > maximum_age
}

/// Whether an artifact of the given age in days has to be downloaded again.
pub fn is_old(age_of_file: i64, maximum_age: i64) -> (old_enough: bool)
    ensures
        old_enough == stale(age_of_file as int, maximum_age as int),
{
    age_of_file > maximum_age
}

/// `needle` stands in `hay` beginning at position `at`.
pub open spec fn occurs_at(hay: Seq<char>, needle: Seq<char>, at: int) -> bool {
    &&& 0 <= at
    &&& at + needle.len() <= hay.len()
    &&& hay.subrange(at, at + needle.len()) == needle
}

/// `needle` stands somewhere in `hay`. The empty sequence stands in every
/// sequence.
pub open spec fn occurs_in(hay: Seq<char>, needle: Seq<char>) -> bool {
    exists|at: int| occurs_at(hay, needle, at)
}

/// Some path of the listing holds `nr` somewhere in its text.
pub open spec fn listed(paths: Seq<String>, nr: Seq<char>) -> bool {
    exists|i: int| 0 <= i < paths.len() && occurs_in(#[trigger] paths[i]@, nr)
}

/// The characters of `text`, in order.
fn chars_of(text: &str) -> (chars: Vec<char>)
    ensures
        chars@ == text@,
{
    let mut chars: Vec<char> = Vec::new();
    for c in it: text.chars()
        invariant
            chars@ == it.seq().take(it.index()),
            it.seq() == text@,
    {
        chars.push(c);
    }
    chars
}

/// Compares `needle` with the characters of `hay` that begin at `at`.
fn stands_at(hay: &Vec<char>, needle: &Vec<char>, at: usize) -> (found: bool)
    requires
        at + needle.len() <= hay.len(),
    ensures
        found == occurs_at(hay@, needle@, at as int),
{
    let mut j: usize = 0;
    while j < needle.len()
        invariant
            j <= needle.len(),
            at + needle.len() <= hay.len(),
            forall|k: int| 0 <= k < j ==> hay@[at + k] == needle@[k],
        decreases needle.len() - j,
    {
        if hay[at + j] != needle[j] {
            assert(hay@.subrange(at as int, at + needle.len())[j as int] == hay@[at + j]);
            return false;
        }
        j += 1;
    }
    assert(hay@.subrange(at as int, at + needle.len()) =~= needle@);
    true
}

/// Searches `hay` for `needle`, trying every position in turn.
fn stands_in(hay: &Vec<char>, needle: &Vec<char>) -> (found: bool)
    ensures
        found == occurs_in(hay@, needle@),
{
    if needle.len() > hay.len() {
        return false;
    }
    let last: usize = hay.len() - needle.len();
    let mut at: usize = 0;
    while at < last
        invariant
            last == hay.len() - needle.len(),
            at <= last,
            forall|k: int| 0 <= k < at ==> !occurs_at(hay@, needle@, k),
        decreases last - at,
    {
        if stands_at(hay, needle, at) {
            return true;
        }
        at += 1;
    }
    stands_at(hay, needle, last)
}

/// Whether `needle` is a substring of `hay`.
pub fn contains_text(hay: &str, needle: &str) -> (found: bool)
    ensures
        found == occurs_in(hay@, needle@),
{
    let hay_chars = chars_of(hay);
    let needle_chars = chars_of(needle);
    stands_in(&hay_chars, &needle_chars)
}

/// Checks whether the identifier already has an artifact among `paths`, the
/// paths of everything found under the output folder. Any path that holds the
/// identifier as a substring counts, wherever in the path it stands.
pub fn is_downloaded(paths: &Vec<String>, nr: &str) -> (found: bool)
    ensures
        found == listed(paths@, nr@),
{
    let needle = chars_of(nr);
    let mut i: usize = 0;
    while i < paths.len()
        invariant
            i <= paths.len(),
            needle@ == nr@,
            forall|k: int| 0 <= k < i ==> !occurs_in(#[trigger] paths@[k]@, nr@),
        decreases paths.len() - i,
    {
        let hay = chars_of(paths[i].as_str());
        if stands_in(&hay, &needle) {
            return true;
        }
        i += 1;
    }
    false
}

/// A listing holds an identifier after a path is added exactly when it held
/// it before or the new path holds it.
pub proof fn lemma_listing_with_new_path(paths: Seq<String>, path: String, nr: Seq<char>)
    ensures
        listed(paths.push(path), nr) <==> listed(paths, nr) || occurs_in(path@, nr),
{
    let grown = paths.push(path);
    if listed(paths, nr) {
        let i = choose|i: int| 0 <= i < paths.len() && occurs_in(#[trigger] paths[i]@, nr);
        assert(grown[i] == paths[i]);
    }
    if occurs_in(path@, nr) {
        assert(grown[paths.len() as int] == path);
    }
    if listed(grown, nr) {
        let i = choose|i: int| 0 <= i < grown.len() && occurs_in(#[trigger] grown[i]@, nr);
        if i < paths.len() {
            assert(grown[i] == paths[i]);
        }
    }
}

/// Writing an artifact whose path holds the identifier makes the identifier
/// listed; taking that path away again leaves it unlisted, as long as no
/// other path of the listing holds the identifier.
pub proof fn lemma_written_then_removed(paths: Seq<String>, path: String, nr: Seq<char>)
    requires
        occurs_in(path@, nr),
        !listed(paths, nr),
    ensures
        listed(paths.push(path), nr),
        !listed(paths.push(path).drop_last(), nr),
{
    lemma_listing_with_new_path(paths, path, nr);
    assert(paths.push(path).drop_last() =~= paths);
}

} // verus!
