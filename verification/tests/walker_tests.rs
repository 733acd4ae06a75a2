use ascope::fs::walker::{format_size, summarize_scan, DirEntry, EntryType};

fn entry(path: &str, size: u64, kind: EntryType) -> DirEntry {
    DirEntry {
        path: path.to_string(),
        size,
        entry_type: kind,
        mtime: 0,
        display_path: path.to_string(),
        symlink_target: None,
    }
}

#[test]
fn test_scan_empty_directory() {
    let stats = summarize_scan("/tmp/empty", &vec![]).unwrap();
    assert_eq!(stats.total_size, 0);
    assert_eq!(stats.file_count, 0);
    assert!(stats.subdirs.is_empty());
}

#[test]
fn test_scan_directory_sizes() {
    let walked = vec![
        entry("/r/file1.txt", 5, EntryType::File),
        entry("/r/subdir", 0, EntryType::Directory),
        entry("/r/subdir/file2.log", 12, EntryType::File),
    ];
    let stats = summarize_scan("/r", &walked).unwrap();
    assert_eq!(stats.total_size, 17);
    assert_eq!(stats.file_count, 2);
}

#[test]
fn test_subdirs_attribution() {
    let walked = vec![
        entry("/r/pkg", 0, EntryType::Directory),
        entry("/r/pkg/lib.rs", 12, EntryType::File),
    ];
    let stats = summarize_scan("/r", &walked).unwrap();
    assert_eq!(stats.subdirs, vec![("/r/pkg".to_string(), 12)]);
}

#[test]
fn test_recursive_directory_sizes_in_all_entries() {
    let walked = vec![
        entry("/r/pkg", 0, EntryType::Directory),
        entry("/r/pkg/src", 0, EntryType::Directory),
        entry("/r/pkg/src/lib.rs", 12, EntryType::File),
    ];
    let stats = summarize_scan("/r", &walked).unwrap();
    let pkg = stats.all_entries.iter().find(|e| e.path == "/r/pkg").unwrap();
    let src = stats.all_entries.iter().find(|e| e.path == "/r/pkg/src").unwrap();
    assert_eq!(pkg.size, 12);
    assert_eq!(src.size, 12);
}

#[test]
fn directory_sizes_never_exceed_the_total() {
    let walked = vec![
        entry("/r/a", 0, EntryType::Directory),
        entry("/r/a/x", 3, EntryType::File),
        entry("/r/b", 0, EntryType::Directory),
        entry("/r/b/y", 4, EntryType::File),
        entry("/r/z", 5, EntryType::File),
    ];
    let stats = summarize_scan("/r", &walked).unwrap();
    assert_eq!(stats.total_size, 12);
    for (_, size) in &stats.subdirs {
        assert!(*size <= stats.total_size);
    }
    assert_eq!(stats.subdirs, vec![("/r/a".to_string(), 3), ("/r/b".to_string(), 4)]);
}

#[test]
fn overflowing_totals_are_refused() {
    let walked = vec![
        entry("/r/a", u64::MAX - 1, EntryType::File),
        entry("/r/b", 2, EntryType::File),
    ];
    assert!(summarize_scan("/r", &walked).is_none());
}

#[test]
fn format_size_units() {
    assert_eq!(format_size(0), "0 B");
    assert_eq!(format_size(1023), "1023 B");
    assert_eq!(format_size(1024), "1.00 KB");
    assert_eq!(format_size(1536), "1.50 KB");
    assert_eq!(format_size(1024 * 1024 * 5 / 2), "2.50 MB");
    assert_eq!(format_size(3 * 1024 * 1024 * 1024), "3.00 GB");
    assert_eq!(format_size(1024u64.pow(4)), "1.00 TB");
    assert_eq!(format_size(u64::MAX), "Calculating...");
}

#[test]
fn format_size_matches_float_formatting() {
    let units = [(1024u64, "KB"), (1024u64.pow(2), "MB"), (1024u64.pow(3), "GB"), (1024u64.pow(4), "TB")];
    let samples: [u64; 8] = [1024, 1029, 1035, 5000, 1_234_567, 9_999_999_999, 123_456_789_012, 4_503_599_627_370_495];
    for &b in samples.iter() {
        let (unit, name) = units.iter().rev().find(|(u, _)| b >= *u).unwrap();
        let expected = format!("{:.2} {}", b as f64 / *unit as f64, name);
        assert_eq!(format_size(b), expected, "bytes {}", b);
    }
}

#[test]
fn a_root_with_a_trailing_separator_is_the_same_directory() {
    let walked = vec![
        entry("/r/pkg", 0, EntryType::Directory),
        entry("/r/pkg/lib.rs", 12, EntryType::File),
    ];
    let stats = summarize_scan("/r/", &walked).unwrap();
    assert_eq!(stats.subdirs, vec![("/r/pkg".to_string(), 12)]);
    assert_eq!(stats.all_entries[0].display_path, "pkg");
    assert_eq!(stats.all_entries[0].size, 12);
}
