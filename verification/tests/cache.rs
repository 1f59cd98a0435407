use http_file_server::cache::{validate_entry, CachedFile, DeliveryCache};
use http_file_server::engine::{is_cache_eligible, CACHE_FILE_SIZE_LIMIT};

#[test]
fn empty_cache_misses() {
    let mut c = DeliveryCache::new(16, 60);
    assert_eq!(c.lookup(&"/srv/a".to_string(), 1), None);
}

#[test]
fn hit_returns_the_stored_bytes() {
    let mut c = DeliveryCache::new(16, 60);
    c.insert("/srv/a".to_string(), vec![1, 2, 3], 100);
    assert_eq!(c.lookup(&"/srv/a".to_string(), 100), Some(vec![1, 2, 3]));
}

#[test]
fn stale_entry_is_a_miss_and_refresh_supersedes_it() {
    let mut c = DeliveryCache::new(16, 60);
    c.insert("/srv/a".to_string(), vec![1, 2, 3], 100);
    // The file changed on disk: its modification time moved to 200.
    assert_eq!(c.lookup(&"/srv/a".to_string(), 200), None);
    // The caller re-reads and re-inserts; the new entry wins.
    c.insert("/srv/a".to_string(), vec![9, 9], 200);
    assert_eq!(c.lookup(&"/srv/a".to_string(), 200), Some(vec![9, 9]));
    assert_eq!(c.lookup(&"/srv/a".to_string(), 100), None);
}

#[test]
fn second_read_is_served_without_touching_the_disk() {
    // The small-file delivery flow, with a counter standing in for the
    // filesystem: the second identical request must not read again.
    let mut cache = DeliveryCache::new(16, 60);
    let path = "/srv/report.pdf".to_string();
    let mtime: u64 = 42;
    let disk: Vec<u8> = vec![7; 128];
    let mut reads: usize = 0;

    let mut serve = |cache: &mut DeliveryCache, reads: &mut usize| -> Vec<u8> {
        if let Some(bytes) = cache.lookup(&path, mtime) {
            bytes
        } else {
            *reads += 1;
            let data = disk.clone();
            cache.insert(path.clone(), data.clone(), mtime);
            data
        }
    };

    let first = serve(&mut cache, &mut reads);
    let second = serve(&mut cache, &mut reads);
    assert_eq!(first, second);
    assert_eq!(reads, 1);
}

#[test]
fn cache_never_grows_beyond_its_capacity() {
    let mut c = DeliveryCache::new(4, 60);
    for i in 0..32u32 {
        c.insert(format!("/srv/file-{}", i), vec![0; 8], 1);
    }
    assert!(c.settled_len() <= 4);
}

#[test]
fn distinct_paths_are_independent() {
    let mut c = DeliveryCache::new(16, 60);
    c.insert("/srv/a".to_string(), vec![1], 10);
    c.insert("/srv/b".to_string(), vec![2], 20);
    assert_eq!(c.lookup(&"/srv/a".to_string(), 10), Some(vec![1]));
    assert_eq!(c.lookup(&"/srv/b".to_string(), 20), Some(vec![2]));
}

#[test]
fn validation_serves_only_matching_mtimes() {
    let e = CachedFile { data: vec![1, 2], modified: 5 };
    assert_eq!(validate_entry(Some(e), 5), Some(vec![1, 2]));
    let e = CachedFile { data: vec![1, 2], modified: 5 };
    assert_eq!(validate_entry(Some(e), 6), None);
    assert_eq!(validate_entry(None, 5), None);
}

#[test]
fn clones_are_handles_onto_one_cache() {
    let mut c = DeliveryCache::new(16, 60);
    let mut handle = c.clone();
    handle.insert("/srv/shared".to_string(), vec![5, 5], 30);
    // Requests holding different handles see the same store.
    assert_eq!(c.lookup(&"/srv/shared".to_string(), 30), Some(vec![5, 5]));
    c.insert("/srv/other".to_string(), vec![6], 31);
    assert_eq!(handle.lookup(&"/srv/other".to_string(), 31), Some(vec![6]));
}

#[test]
fn threshold_boundary_routes_exactly() {
    let threshold = CACHE_FILE_SIZE_LIMIT;
    assert!(is_cache_eligible(1, threshold));
    assert!(is_cache_eligible(threshold, threshold));
    assert!(!is_cache_eligible(threshold + 1, threshold));
    // An empty file is never cached; it streams through the large-file path.
    assert!(!is_cache_eligible(0, threshold));
}
