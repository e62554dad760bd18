use undo::cache::Cache;
use undo::errors::CacheError;
use undo::report::list_message;

#[test]
fn backup_then_tracked_and_listed() {
    let mut cache = Cache::open_path(":memory:").unwrap();
    cache.backup("/tmp/a.txt", b"hello", 0o644).unwrap();
    assert!(cache.is_tracked("/tmp/a.txt").unwrap());
    let files = cache.list().unwrap();
    assert!(files.iter().any(|f| f == "/tmp/a.txt"));
}

#[test]
fn first_backup_wins_across_rewrites() {
    let mut cache = Cache::open_path(":memory:").unwrap();
    cache.backup("/tmp/t.txt", b"old\n", 0o644).unwrap();
    cache.backup("/tmp/t.txt", b"hello\n", 0o600).unwrap();
    cache.backup("/tmp/t.txt", b"third\n", 0o755).unwrap();
    let snap = cache.restore_data("/tmp/t.txt").unwrap();
    assert_eq!(snap.content, b"old\n".to_vec());
    assert_eq!(snap.mode, 0o644);
}

#[test]
fn backup_restore_round_trip() {
    let mut cache = Cache::open_path(":memory:").unwrap();
    cache.backup("/tmp/t.txt", b"old\n", 0o644).unwrap();
    let snap = cache.restore("/tmp/t.txt").unwrap();
    assert_eq!(snap.content, b"old\n".to_vec());
    assert_eq!(snap.mode, 0o644);
    assert!(!cache.is_tracked("/tmp/t.txt").unwrap());
    assert!(cache.list().unwrap().is_empty());
}

#[test]
fn clear_then_nothing_tracked_and_restore_misses() {
    let mut cache = Cache::open_path(":memory:").unwrap();
    cache.backup("/tmp/a", b"a", 0o644).unwrap();
    cache.backup("/tmp/b", b"b", 0o600).unwrap();
    cache.clear().unwrap();
    assert!(cache.list().unwrap().is_empty());
    assert_eq!(cache.restore("/tmp/a").unwrap_err(), CacheError::NotFound);
    assert_eq!(
        list_message(&cache.list().unwrap()),
        "No files are currently tracked for undo.\n"
    );
}

#[test]
fn list_agrees_with_is_tracked() {
    let mut cache = Cache::open_path(":memory:").unwrap();
    let paths = ["/tmp/x", "/tmp/y", "/tmp/z"];
    for p in paths.iter() {
        cache.backup(p, b"c", 0o644).unwrap();
    }
    let listed = cache.list().unwrap();
    assert_eq!(listed.len(), 3);
    for p in paths.iter() {
        assert!(cache.is_tracked(p).unwrap());
        assert!(listed.iter().any(|f| f == p));
    }
    assert!(!cache.is_tracked("/not/there").unwrap());
    assert!(!listed.iter().any(|f| f == "/not/there"));
}

#[test]
fn revert_all_restores_each_and_empties_store() {
    let mut cache = Cache::open_path(":memory:").unwrap();
    cache.backup("/tmp/one", b"1", 0o644).unwrap();
    cache.backup("/tmp/two", b"2", 0o640).unwrap();
    cache.backup("/tmp/three", b"3", 0o600).unwrap();
    let files = cache.list().unwrap();
    assert_eq!(files.len(), 3);
    for f in files.iter() {
        let snap = cache.restore(f).unwrap();
        assert!(!snap.content.is_empty());
        assert!(!cache.is_tracked(f).unwrap());
    }
    assert!(cache.list().unwrap().is_empty());
}

#[test]
fn arbitrary_bytes_survive_the_store() {
    let mut cache = Cache::open_path(":memory:").unwrap();
    cache.backup("/tmp/empty", b"", 0o644).unwrap();
    cache.backup("/tmp/nuls", b"a\x00b\x00", 0o600).unwrap();
    assert_eq!(cache.restore("/tmp/empty").unwrap().content, b"".to_vec());
    assert_eq!(
        cache.restore("/tmp/nuls").unwrap().content,
        b"a\x00b\x00".to_vec()
    );
}

#[test]
fn long_and_non_ascii_paths() {
    let mut cache = Cache::open_path(":memory:").unwrap();
    let mut long = String::from("/tmp/");
    while long.len() < 4096 {
        long.push('x');
    }
    cache.backup(&long, b"deep", 0o644).unwrap();
    assert!(cache.is_tracked(&long).unwrap());
    let accented = "/tmp/héllo_ü.txt";
    cache.backup(accented, b"text", 0o644).unwrap();
    let snap = cache.restore(accented).unwrap();
    assert_eq!(snap.content, b"text".to_vec());
    assert_eq!(cache.restore(&long).unwrap().content, b"deep".to_vec());
}

#[test]
fn restore_on_empty_store_is_not_found() {
    let mut cache = Cache::open_path(":memory:").unwrap();
    assert_eq!(cache.restore("/nope").unwrap_err(), CacheError::NotFound);
    assert_eq!(
        cache.restore_data("/nope").unwrap_err(),
        CacheError::NotFound
    );
}

#[test]
fn snapshots_persist_across_reopen() {
    let db = "/tmp/undo_reopen_test.db";
    {
        let mut cache = Cache::open_path(db).unwrap();
        cache.clear().unwrap();
        cache.backup("/tmp/keep", b"kept", 0o644).unwrap();
    }
    let mut cache = Cache::open_path(db).unwrap();
    assert!(cache.is_tracked("/tmp/keep").unwrap());
    let snap = cache.restore("/tmp/keep").unwrap();
    assert_eq!(snap.content, b"kept".to_vec());
    cache.clear().unwrap();
}

#[test]
fn new_joins_cache_db_under_directory() {
    let cache = Cache::new("/tmp");
    assert!(cache.is_ok());
}

#[test]
fn forget_drops_only_the_given_path() {
    let mut cache = Cache::open_path(":memory:").unwrap();
    cache.backup("/tmp/a", b"a", 0o644).unwrap();
    cache.backup("/tmp/b", b"b", 0o644).unwrap();
    cache.forget("/tmp/a").unwrap();
    assert!(!cache.is_tracked("/tmp/a").unwrap());
    assert!(cache.is_tracked("/tmp/b").unwrap());
}
