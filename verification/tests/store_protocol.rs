//! Runtime checks of the store's operations over the filesystem model.

use config_file_store::errors::StoreError;
use config_file_store::store::FileSystem;

#[test]
fn stat_of_nonexistent_path_is_zeroed_and_exists_is_false() {
    let fs = FileSystem::new();
    let md = fs.get_file_metadata("/tmp/never-written");
    assert_eq!(md.modified_time, 0);
    assert_eq!(md.size, 0);
    assert!(!md.exists);
    assert!(!fs.file_exists("/tmp/never-written"));
}

#[test]
fn write_then_read_round_trips() {
    let mut fs = FileSystem::new();
    fs.write_config_file("/tmp/cfg", "font-size = 12\n", 100);
    let got = fs.read_config_file("/tmp/cfg").unwrap();
    assert_eq!(got, "font-size = 12\n");
}

#[test]
fn write_overwrites_in_full_and_updates_the_snapshot() {
    let mut fs = FileSystem::new();
    fs.write_config_file("/tmp/cfg", "first", 100);
    fs.write_config_file("/tmp/cfg", "second one", 200);
    assert_eq!(fs.read_config_file("/tmp/cfg").unwrap(), "second one");
    let md = fs.get_file_metadata("/tmp/cfg");
    assert!(md.exists);
    assert_eq!(md.modified_time, 200);
    assert_eq!(md.size, 10);
}

#[test]
fn read_of_missing_file_is_an_io_error_with_the_path() {
    let fs = FileSystem::new();
    let err = fs.read_config_file("/tmp/absent").unwrap_err();
    match &err {
        StoreError::IoError { path, cause } => {
            assert_eq!(path.as_str(), "/tmp/absent");
            assert_eq!(cause.as_str(), "no such file or directory");
        }
        other => panic!("unexpected error: {:?}", other),
    }
    let msg = err.message();
    assert_eq!(
        msg,
        "Failed to access file /tmp/absent: no such file or directory"
    );
}

#[test]
fn backup_of_nonexistent_path_fails_and_creates_no_file() {
    let mut fs = FileSystem::new();
    let err = fs.create_backup("/tmp/cfg", 50).unwrap_err();
    assert_eq!(
        err,
        StoreError::NotFoundError {
            path: "/tmp/cfg".to_string()
        }
    );
    assert_eq!(err.message(), "Source file does not exist: /tmp/cfg");
    assert!(!fs.file_exists("/tmp/cfg.bak"));
    assert!(!fs.file_exists("/tmp/cfg"));
}

#[test]
fn backup_of_existing_path_copies_its_bytes_to_the_derived_path() {
    let mut fs = FileSystem::new();
    fs.write_config_file("/tmp/cfg", "theme = dark", 10);
    let bak = fs.create_backup("/tmp/cfg", 11).unwrap();
    assert_eq!(bak, "/tmp/cfg.bak");
    assert_eq!(fs.read_config_file("/tmp/cfg.bak").unwrap(), "theme = dark");
    // The source is untouched.
    assert_eq!(fs.read_config_file("/tmp/cfg").unwrap(), "theme = dark");
}

#[test]
fn second_backup_overwrites_the_first_at_the_same_path() {
    let mut fs = FileSystem::new();
    fs.write_config_file("/tmp/cfg", "v1", 10);
    let bak1 = fs.create_backup("/tmp/cfg", 11).unwrap();
    fs.write_config_file("/tmp/cfg", "v2", 20);
    let bak2 = fs.create_backup("/tmp/cfg", 21).unwrap();
    // The derived path is the same both times; the content is the source's
    // state at the second call.
    assert_eq!(bak1, bak2);
    assert_eq!(fs.read_config_file("/tmp/cfg.bak").unwrap(), "v2");
    // There is exactly one backup file: removing it leaves none behind.
    assert!(fs.remove_file("/tmp/cfg.bak"));
    assert!(!fs.file_exists("/tmp/cfg.bak"));
}

#[test]
fn backup_twice_in_direct_succession_changes_nothing_further() {
    let mut fs = FileSystem::new();
    fs.write_config_file("/tmp/cfg", "stable", 10);
    fs.create_backup("/tmp/cfg", 11).unwrap();
    fs.create_backup("/tmp/cfg", 11).unwrap();
    assert_eq!(fs.read_config_file("/tmp/cfg.bak").unwrap(), "stable");
}

#[test]
fn write_then_stat_reports_the_byte_length_of_the_content() {
    let mut fs = FileSystem::new();
    fs.write_config_file("/tmp/cfg", "foo=1", 7);
    let md = fs.get_file_metadata("/tmp/cfg");
    assert_eq!(md.size, 5);
    assert_eq!(md.modified_time, 7);
    assert!(md.exists);
}

#[test]
fn stat_size_counts_bytes_not_characters() {
    let mut fs = FileSystem::new();
    // Two characters, three bytes in UTF-8.
    fs.write_config_file("/tmp/cfg", "dé", 1);
    let md = fs.get_file_metadata("/tmp/cfg");
    assert_eq!(md.size, 3);
}

#[test]
fn empty_content_round_trips_with_size_zero() {
    let mut fs = FileSystem::new();
    fs.write_config_file("/tmp/cfg", "", 3);
    assert_eq!(fs.read_config_file("/tmp/cfg").unwrap(), "");
    let md = fs.get_file_metadata("/tmp/cfg");
    assert!(md.exists);
    assert_eq!(md.size, 0);
    assert_eq!(md.modified_time, 3);
}

#[test]
fn remove_of_missing_path_reports_false() {
    let mut fs = FileSystem::new();
    assert!(!fs.remove_file("/tmp/none"));
    assert!(!fs.file_exists("/tmp/none"));
}

#[test]
fn operations_on_different_paths_are_independent() {
    let mut fs = FileSystem::new();
    fs.write_config_file("/a", "one", 1);
    fs.write_config_file("/b", "two", 2);
    assert_eq!(fs.read_config_file("/a").unwrap(), "one");
    assert_eq!(fs.read_config_file("/b").unwrap(), "two");
    assert!(fs.remove_file("/a"));
    assert!(!fs.file_exists("/a"));
    assert_eq!(fs.read_config_file("/b").unwrap(), "two");
}

#[test]
fn full_scenario_write_stat_backup_delete() {
    let mut fs = FileSystem::new();
    fs.write_config_file("/tmp/cfg", "foo=1", 1000);

    let md = fs.get_file_metadata("/tmp/cfg");
    assert!(md.exists);
    assert_eq!(md.size, 5);

    let bak = fs.create_backup("/tmp/cfg", 1001).unwrap();
    assert_eq!(bak, "/tmp/cfg.bak");
    assert_eq!(fs.read_config_file("/tmp/cfg.bak").unwrap(), "foo=1");

    assert!(fs.remove_file("/tmp/cfg"));

    let md = fs.get_file_metadata("/tmp/cfg");
    assert!(!md.exists);
    assert_eq!(md.size, 0);
    assert_eq!(md.modified_time, 0);

    let err = fs.create_backup("/tmp/cfg", 1002).unwrap_err();
    assert!(matches!(err, StoreError::NotFoundError { .. }));
}
