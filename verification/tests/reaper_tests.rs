use timelapse::reaper::{
    cache_folder_name, count_stale_entries, entry_is_stale, CacheEntry, CACHE_RETENTION_SECS,
};

const DAY_SECS: u64 = 24 * 60 * 60;

#[test]
fn test_reaper_removes_only_old_directories() {
    // One subdirectory 16 days old, one 10 days old, one plain file 20 days
    // old: exactly the 16-day-old directory is removed and counted.
    let sixteen_days = CacheEntry { is_dir: true, age_secs: 16 * DAY_SECS };
    let ten_days = CacheEntry { is_dir: true, age_secs: 10 * DAY_SECS };
    let old_file = CacheEntry { is_dir: false, age_secs: 20 * DAY_SECS };

    assert!(entry_is_stale(&sixteen_days));
    assert!(!entry_is_stale(&ten_days));
    assert!(!entry_is_stale(&old_file));

    let entries = vec![sixteen_days, ten_days, old_file];
    assert_eq!(count_stale_entries(&entries), 1);
}

#[test]
fn test_reaper_retention_boundary() {
    // Exactly fifteen days old is kept; one second older is removed.
    let at_window = CacheEntry { is_dir: true, age_secs: CACHE_RETENTION_SECS };
    let past_window = CacheEntry { is_dir: true, age_secs: CACHE_RETENTION_SECS + 1 };

    assert!(!entry_is_stale(&at_window));
    assert!(entry_is_stale(&past_window));
}

#[test]
fn test_reaper_empty_listing() {
    let entries: Vec<CacheEntry> = Vec::new();
    assert_eq!(count_stale_entries(&entries), 0);
}

#[test]
fn test_cache_folder_name_strips_extension() {
    assert_eq!(cache_folder_name("2024-01-01.mov"), "2024-01-01");
    assert_eq!(cache_folder_name("clip.mov.mov"), "clip");
    assert_eq!(cache_folder_name("already-a-folder"), "already-a-folder");
    assert_eq!(cache_folder_name("movie.mp4"), "movie.mp4");
}
