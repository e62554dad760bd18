use undo::cache::Cache;
use undo::cstring::{finish_cstring, push_word};
use undo::errors::TraceError;
use undo::paths::resolve_path;
use undo::sniff::{
    classify, dirfd_is_cwd, mark_change, sniff, u64_to_decimal, Change, ChangeKind, SniffAction,
    SyscallClass, SyscallEntry, AT_CWD_SENTINEL,
};

#[test]
fn classify_follows_the_syscall_table() {
    assert_eq!(classify(2), SyscallClass::Modify { path_arg: 0 });
    assert_eq!(classify(85), SyscallClass::Create { path_arg: 0 });
    assert_eq!(classify(87), SyscallClass::Delete { path_arg: 0 });
    assert_eq!(
        classify(257),
        SyscallClass::ModifyAt {
            dirfd_arg: 0,
            path_arg: 1
        }
    );
    for n in [
        76u64, 77, 80, 81, 83, 84, 86, 88, 90, 91, 92, 93, 94, 133, 161, 188, 193, 198, 258, 259,
        260, 263, 266, 268, 437,
    ] {
        assert_eq!(classify(n), SyscallClass::Unresolved);
    }
    for n in [0u64, 1, 3, 75, 78, 79, 82, 89, 95, 132, 134, 187, 199, 256, 261, 262, 269, 436, 438]
    {
        assert_eq!(classify(n), SyscallClass::Unknown);
    }
}

#[test]
fn sniff_names_the_path_register() {
    let open_entry = SyscallEntry {
        number: 2,
        args: [11, 0, 0, 0, 0, 0],
    };
    assert_eq!(
        sniff(&open_entry),
        SniffAction::Snapshot {
            kind: ChangeKind::Changed,
            path_arg: 0
        }
    );
    let creat_entry = SyscallEntry {
        number: 85,
        args: [12, 0, 0, 0, 0, 0],
    };
    assert_eq!(
        sniff(&creat_entry),
        SniffAction::Snapshot {
            kind: ChangeKind::Created,
            path_arg: 0
        }
    );
    let unlink_entry = SyscallEntry {
        number: 87,
        args: [13, 0, 0, 0, 0, 0],
    };
    assert_eq!(
        sniff(&unlink_entry),
        SniffAction::Snapshot {
            kind: ChangeKind::Deleted,
            path_arg: 0
        }
    );
    let openat_entry = SyscallEntry {
        number: 257,
        args: [AT_CWD_SENTINEL, 22, 0, 0, 0, 0],
    };
    assert_eq!(
        sniff(&openat_entry),
        SniffAction::SnapshotAt {
            dirfd: AT_CWD_SENTINEL,
            path_arg: 1
        }
    );
    let write_entry = SyscallEntry {
        number: 1,
        args: [1, 0, 0, 0, 0, 0],
    };
    assert_eq!(sniff(&write_entry), SniffAction::Skip);
    let truncate_entry = SyscallEntry {
        number: 76,
        args: [0, 0, 0, 0, 0, 0],
    };
    assert_eq!(sniff(&truncate_entry), SniffAction::Mark { number: 76 });
}

#[test]
fn dirfd_sentinel_is_recognised() {
    assert!(dirfd_is_cwd(0xFFFF_FFFF_FFFF_FF9C));
    assert!(dirfd_is_cwd(AT_CWD_SENTINEL));
    assert!(!dirfd_is_cwd(3));
    assert!(!dirfd_is_cwd(0));
}

#[test]
fn reader_stops_at_the_first_nul() {
    // "ab\0" in one little-endian word.
    let word: u64 = 0x0000_0000_0000_6261;
    let mut buf: Vec<u8> = Vec::new();
    let found = push_word(&mut buf, word);
    assert!(found);
    assert_eq!(buf, vec![0x61, 0x62]);
    assert_eq!(finish_cstring(buf).unwrap(), "ab");
}

#[test]
fn reader_spans_words_without_nul() {
    // "abcdefgh" fills a word; the NUL comes in the next one.
    let full: u64 = 0x6867_6665_6463_6261;
    let mut buf: Vec<u8> = Vec::new();
    assert!(!push_word(&mut buf, full));
    assert_eq!(buf.len(), 8);
    assert!(push_word(&mut buf, 0));
    assert_eq!(buf.len(), 8);
    assert_eq!(finish_cstring(buf).unwrap(), "abcdefgh");
}

#[test]
fn reader_rejects_bytes_that_are_not_text() {
    let buf = vec![0xffu8, 0xfe];
    assert_eq!(finish_cstring(buf).unwrap_err(), TraceError::InvalidUtf8);
}

#[test]
fn marks_carry_the_syscall_number_in_decimal() {
    assert_eq!(u64_to_decimal(0), "0");
    assert_eq!(u64_to_decimal(76), "76");
    assert_eq!(u64_to_decimal(10), "10");
    assert_eq!(u64_to_decimal(18446744073709551615), "18446744073709551615");
    let change = mark_change(76);
    assert!(matches!(&change, Change::Changed(p) if p == "76"));
    assert_eq!(change.describe(), "File changed: 76");
}

#[test]
fn resolve_path_joins_relative_paths() {
    assert_eq!(resolve_path("/home/u", "f.txt"), "/home/u/f.txt");
    assert_eq!(resolve_path("/home/u/", "f.txt"), "/home/u/f.txt");
    assert_eq!(resolve_path("/home/u", "/etc/passwd"), "/etc/passwd");
    assert_eq!(resolve_path("/", "f"), "/f");
}

#[test]
fn changes_describe_their_paths() {
    let created = Change::of_kind(ChangeKind::Created, String::from("/tmp/new"));
    assert_eq!(created.describe(), "File created: /tmp/new");
    assert_eq!(created.path(), "/tmp/new");
    let deleted = Change::of_kind(ChangeKind::Deleted, String::from("/tmp/gone"));
    assert_eq!(deleted.describe(), "File deleted: /tmp/gone");
    let changed = Change::of_kind(ChangeKind::Changed, String::from("/tmp/t"));
    assert_eq!(changed.describe(), "File changed: /tmp/t");
    assert!(matches!(&created, Change::Created(p) if p == "/tmp/new"));
    assert!(matches!(&deleted, Change::Deleted(_)));
    assert!(matches!(&changed, Change::Changed(_)));
}

#[test]
fn decoded_open_feeds_the_store_with_the_pre_run_state() {
    // The tracee sits at the entry of open("/tmp/t.txt", ...): the path
    // pointer is in argument 0.
    let entry = SyscallEntry {
        number: 2,
        args: [0x7000, 0, 0, 0, 0, 0],
    };
    let action = sniff(&entry);
    let path_arg = match action {
        SniffAction::Snapshot {
            kind: ChangeKind::Changed,
            path_arg,
        } => path_arg,
        other => panic!("unexpected action {:?}", other),
    };
    assert_eq!(path_arg, 0);

    // The words at that pointer spell "/tmp/t.txt\0".
    let mut buf: Vec<u8> = Vec::new();
    assert!(!push_word(&mut buf, 0x742e_742f_706d_742f));
    assert!(push_word(&mut buf, 0x7478));
    let raw = finish_cstring(buf).unwrap();
    assert_eq!(raw, "/tmp/t.txt");
    let resolved = resolve_path("/home/u", &raw);
    assert_eq!(resolved, "/tmp/t.txt");

    // The file pre-exists with "old\n" and mode 0644; the editor rewrites it
    // and touches it again. Reverting yields the pre-run state.
    let mut cache = Cache::open_path(":memory:").unwrap();
    cache.backup(&resolved, b"old\n", 0o644).unwrap();
    cache.backup(&resolved, b"hello\n", 0o644).unwrap();
    let snap = cache.restore(&resolved).unwrap();
    assert_eq!(snap.content, b"old\n".to_vec());
    assert_eq!(snap.mode, 0o644);
    assert!(!cache.is_tracked(&resolved).unwrap());
}
