use geoip_api::retention::FileMeta;
use geoip_api::retention::is_dataset_filename;
use geoip_api::retention::plan_retention;

fn meta(name: &str, mtime: u64) -> FileMeta {
    FileMeta { name: name.to_string(), mtime }
}

#[test]
fn dataset_name_pattern() {
    assert!(is_dataset_filename("dbip-city-lite-2025-03.mmdb"));
    assert!(!is_dataset_filename("latest.mmdb"));
    assert!(!is_dataset_filename("dbip-city-lite-2025-03.mmdb.tmp"));
    assert!(!is_dataset_filename("notes.txt"));
    assert!(!is_dataset_filename(""));
}

#[test]
fn three_or_fewer_files_are_kept() {
    let files = vec![
        meta("dbip-city-lite-2025-01.mmdb", 10),
        meta("dbip-city-lite-2025-02.mmdb", 20),
        meta("dbip-city-lite-2025-03.mmdb", 30),
    ];
    assert_eq!(plan_retention(&files), Vec::<usize>::new());
}

#[test]
fn oldest_beyond_three_are_deleted() {
    let files = vec![
        meta("dbip-city-lite-2024-12.mmdb", 12),
        meta("dbip-city-lite-2025-01.mmdb", 10),
        meta("dbip-city-lite-2025-02.mmdb", 20),
        meta("dbip-city-lite-2025-03.mmdb", 30),
        meta("dbip-city-lite-2025-04.mmdb", 40),
    ];
    // The two oldest (mtime 10 and 12) go; the three newest stay.
    assert_eq!(plan_retention(&files), vec![0, 1]);
}

#[test]
fn pointer_and_foreign_files_are_never_deleted() {
    let files = vec![
        meta("latest.mmdb", 1),
        meta("dbip-city-lite-2025-01.mmdb", 10),
        meta("notes.txt", 2),
        meta("dbip-city-lite-2025-02.mmdb", 20),
        meta("dbip-city-lite-2025-03.mmdb", 30),
        meta("dbip-city-lite-2025-04.mmdb", 40),
        meta("dbip-city-lite-2025-05.mmdb", 50),
    ];
    // Five dataset files: the two oldest of them go; the pointer and the
    // stray file stay untouched even though their times are the smallest.
    assert_eq!(plan_retention(&files), vec![1, 3]);
}

#[test]
fn ties_still_leave_three() {
    let files = vec![
        meta("dbip-city-lite-2025-01.mmdb", 10),
        meta("dbip-city-lite-2025-02.mmdb", 10),
        meta("dbip-city-lite-2025-03.mmdb", 10),
        meta("dbip-city-lite-2025-04.mmdb", 10),
    ];
    let delete = plan_retention(&files);
    assert_eq!(delete.len(), 1);
    assert!(delete[0] < 4);
}

#[test]
fn empty_directory_plans_nothing() {
    assert_eq!(plan_retention(&Vec::new()), Vec::<usize>::new());
}
