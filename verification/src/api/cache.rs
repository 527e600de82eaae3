//! Where the last balance is kept between invocations, and for how long it
//! is trusted.
//!
//! The record's age is the age of its file: the record itself carries no
//! time. Reading and writing the file is left to the caller; this module
//! says where the file lies and what to make of what was read.

use vstd::prelude::*;
use std::path::PathBuf;
use super::BalanceData;

verus! {

/// A stored balance younger than this many seconds is served without asking
/// the remote service again.
pub const CACHE_FRESH_SECS: u64 = 300;

/// Directory below the host tool's directory that holds this program's files.
pub const APP_DIR: &'static str = "ikuncodeline";

/// Directory below `APP_DIR` that holds the cache.
pub const CACHE_DIR: &'static str = "cache";

/// Name of the file that holds the last balance.
pub const CACHE_FILE: &'static str = "balance.json";

/// `std::path::PathBuf`, carried through as it is: nothing is known of what a
/// path holds.
#[verifier::external_type_specification]
#[verifier::external_body]
pub struct ExPathBuf(PathBuf);

/// The path that `std::path::Path::join` gives for `base` and `name`.
pub uninterp spec fn joined(base: PathBuf, name: Seq<char>) -> PathBuf;

/// `dirs::home_dir`: the home directory of the current user, if the platform
/// can tell. Nothing is claimed of the outcome, which depends on the
/// environment of the process.
#[verifier::external_body]
fn home_dir() -> (home: Option<PathBuf>) {
    dirs::home_dir()
}

/// `std::path::Path::join`: `base` with `name` adjoined. The result is a
/// function of the two arguments and is known only by its name, `joined`.
#[verifier::external_body]
fn join(base: &PathBuf, name: &str) -> (path: PathBuf)
    ensures
        path == joined(*base, name@),
{
    base.join(name)
}

/// The cache directory of a user whose home directory is `home`, where the
/// host tool keeps its files in the directory `host_dir` below the home
/// directory: the cache lies among the host's files.
pub open spec fn cache_dir_of(home: PathBuf, host_dir: Seq<char>) -> PathBuf {
    joined(joined(joined(home, host_dir), APP_DIR@), CACHE_DIR@)
}

/// The cache file within the cache directory `dir`.
pub open spec fn cache_file_in(dir: PathBuf) -> PathBuf {
    joined(dir, CACHE_FILE@)
}

/// The cache directory below the given home directory, among the files of
/// the host tool, whose directory below the home directory is named
/// `host_dir`; `None` where there is no home directory.
pub fn cache_dir_under(home: Option<PathBuf>, host_dir: &str) -> (dir: Option<PathBuf>)
    ensures
        match home {
            Some(h) => dir == Some(cache_dir_of(h, host_dir@)),
            None => dir is None,
        },
{
    match home {
        Some(h) => Some(join(&join(&join(&h, host_dir), APP_DIR), CACHE_DIR)),
        None => None,
    }
}

/// The cache directory of the current user, or `None` where no home
/// directory can be found: caching is then switched off. `host_dir` names
/// the directory of the host tool below the home directory. The directory is
/// not created here.
pub fn get_cache_dir(host_dir: &str) -> (dir: Option<PathBuf>)
    ensures
        dir matches Some(d) ==> exists|home: PathBuf| d == cache_dir_of(home, host_dir@),
{
    cache_dir_under(home_dir(), host_dir)
}

/// The cache file in `dir`; `None` where there is no cache directory.
pub fn get_cache_file(dir: Option<&PathBuf>) -> (file: Option<PathBuf>)
    ensures
        match dir {
            Some(d) => file == Some(cache_file_in(*d)),
            None => file is None,
        },
{
    match dir {
        Some(d) => Some(join(d, CACHE_FILE)),
        None => None,
    }
}

/// A point in time: `secs` whole seconds and `nanos` nanoseconds after the
/// Unix epoch.
#[derive(Clone, Copy, Debug, PartialEq, Eq)]
pub struct Timestamp {
    pub secs: u64,
    pub nanos: u32,
}

impl Timestamp {
    /// Nanoseconds since the Unix epoch.
    pub open spec fn as_nanos(self) -> int {
        self.secs * 1_000_000_000 + self.nanos
    }
}

/// Whether a file that was last modified at `modified` is fresh at `now`:
/// it is, if `now` less the time of modification is less than
/// `CACHE_FRESH_SECS`. So is a file that was modified after `now`. A file
/// without a known modification time is not fresh.
pub open spec fn fresh_at(now: Timestamp, modified: Option<Timestamp>) -> bool {
    match modified {
        Some(m) => now.as_nanos() - m.as_nanos() < CACHE_FRESH_SECS * 1_000_000_000,
        None => false,
    }
}

/// Tells whether the cache file is fresh at `now`. `modified` is the time at
/// which the file was last modified, `None` where that cannot be had.
pub fn is_cache_fresh(now: Timestamp, modified: Option<Timestamp>) -> (fresh: bool)
    ensures
        fresh == fresh_at(now, modified),
{
    match modified {
        Some(m) => {
            let then: u128 = m.secs as u128 * 1_000_000_000 + m.nanos as u128;
            let current: u128 = now.secs as u128 * 1_000_000_000 + now.nanos as u128;
            current < then || current - then < CACHE_FRESH_SECS as u128 * 1_000_000_000
        },
        None => false,
    }
}

/// Freshness goes by whole seconds of age: a file is fresh as long as fewer
/// than `CACHE_FRESH_SECS` full seconds have passed since it was modified.
pub proof fn lemma_fresh_by_whole_seconds(now: Timestamp, modified: Timestamp)
    ensures
        fresh_at(now, Some(modified)) <==> (now.as_nanos() - modified.as_nanos()) / 1_000_000_000
            < CACHE_FRESH_SECS,
{
}

/// A file that was modified at `now` or later is fresh.
pub proof fn lemma_fresh_when_not_older(now: Timestamp, modified: Timestamp)
    requires
        now.as_nanos() <= modified.as_nanos(),
    ensures
        fresh_at(now, Some(modified)),
{
}

/// Pairs what was read from the cache file with whether it needs a refresh:
/// it does, if there is a record and its file is no longer fresh. `record` is
/// `None` where the file is missing, unreadable or not a valid record.
pub fn get_cached_balance(
    record: Option<BalanceData>,
    now: Timestamp,
    modified: Option<Timestamp>,
) -> (cached: (Option<BalanceData>, bool))
    ensures
        cached.0 == record,
        cached.1 == (record is Some && !fresh_at(now, modified)),
{
    let needs_refresh = record.is_some() && !is_cache_fresh(now, modified);
    (record, needs_refresh)
}

} // verus!
