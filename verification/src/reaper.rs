//! Time-based reclamation of derived-cache entries.
//!
//! Derived artifacts (transcoded video, extracted frame sequences) live in
//! named subdirectories of a cache root, aged by filesystem modification
//! time. A single reaper pass removes every subdirectory older than a fixed
//! retention window; plain files and younger directories are untouched.
//! This module decides which entries are stale and what a pass removes; the
//! directory listing and the deletions are filesystem work outside the
//! engine core.

use vstd::prelude::*;
use vstd::string::*;

verus! {

/// Retention window of the derived cache, in seconds: fifteen days.
pub const CACHE_RETENTION_SECS: u64 = 15 * 24 * 60 * 60;

/// What the reaper observes about one entry of the cache root: whether it
/// is a directory, and its age (now minus modification time) in seconds.
#[derive(Clone, Copy, PartialEq, Eq, Structural, Debug)]
pub struct CacheEntry {
    pub is_dir: bool,
    pub age_secs: u64,
}

/// A stale entry: a directory strictly older than the retention window.
pub open spec fn spec_stale(e: CacheEntry) -> bool {
    e.is_dir && e.age_secs > CACHE_RETENTION_SECS
}

/// Number of stale entries in a listing.
pub open spec fn spec_stale_count(s: Seq<CacheEntry>) -> nat
    decreases s.len(),
{
    if s.len() == 0 {
        0nat
    } else {
        spec_stale_count(s.drop_last()) + if spec_stale(s.last()) {
            1nat
        } else {
            0nat
        }
    }
}

/// Whether the reaper removes this entry: only directories strictly older
/// than the retention window.
pub fn entry_is_stale(e: &CacheEntry) -> (r: bool)
    ensures
        r == spec_stale(*e),
{
    e.is_dir && e.age_secs > CACHE_RETENTION_SECS
}

/// How many entries of a cache-root listing one reaper pass removes.
pub fn count_stale_entries(entries: &Vec<CacheEntry>) -> (r: usize)
    ensures
        r == spec_stale_count(entries@),
{
    let mut count: usize = 0;
    let n = entries.len();
    for i in 0..n
        invariant
            n == entries@.len(),
            count == spec_stale_count(entries@.take(i as int)),
            count <= i,
    {
        proof {
            assert(entries@.take(i + 1).drop_last() =~= entries@.take(i as int));
            assert(entries@.take(i + 1).last() == entries@[i as int]);
        }
        if entry_is_stale(&entries[i]) {
            count = count + 1;
        }
    }
    proof {
        assert(entries@.take(n as int) =~= entries@);
    }
    count
}

/// `s` ends in `.mov`.
pub open spec fn has_mov_suffix(s: Seq<char>) -> bool {
    s.len() >= 4 && s[s.len() - 4] == '.' && s[s.len() - 3] == 'm' && s[s.len() - 2] == 'o'
        && s[s.len() - 1] == 'v'
}

/// The derived-cache folder name for a video file: every trailing `.mov`
/// removed.
pub open spec fn spec_cache_folder_name(s: Seq<char>) -> Seq<char>
    decreases s.len(),
{
    if has_mov_suffix(s) {
        spec_cache_folder_name(s.take(s.len() - 4))
    } else {
        s
    }
}

/// Derives the cache folder name for a video filename by stripping the
/// `.mov` extension.
pub fn cache_folder_name(video_filename: &str) -> (r: String)
    ensures
        r@ == spec_cache_folder_name(video_filename@),
    decreases video_filename@.len(),
{
    let n = video_filename.unicode_len();
    if n >= 4 {
        let c0 = video_filename.get_char(n - 4);
        let c1 = video_filename.get_char(n - 3);
        let c2 = video_filename.get_char(n - 2);
        let c3 = video_filename.get_char(n - 1);
        if c0 == '.' && c1 == 'm' && c2 == 'o' && c3 == 'v' {
            let t = video_filename.substring_char(0, n - 4);
            assert(t@ =~= video_filename@.take(video_filename@.len() - 4));
            return cache_folder_name(t);
        }
    }
    video_filename.to_owned()
}

} // verus!
