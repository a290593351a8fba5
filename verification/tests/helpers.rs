//! Runtime checks of the stateless helpers: path derivations, metadata
//! probes, and error rendering.

use config_file_store::errors::StoreError;
use config_file_store::metadata::{metadata_from_probe, FileMetadata, StatProbe};
use config_file_store::paths::{backup_path_for, get_default_config_path, Platform};

#[test]
fn backup_path_appends_the_suffix() {
    assert_eq!(backup_path_for("/home/u/.config/ghostty/config"), "/home/u/.config/ghostty/config.bak");
    assert_eq!(backup_path_for(""), ".bak");
}

#[test]
fn probe_of_missing_path_yields_the_zeroed_snapshot() {
    let md = metadata_from_probe(StatProbe::Missing).unwrap();
    assert_eq!(
        md,
        FileMetadata {
            modified_time: 0,
            size: 0,
            exists: false
        }
    );
}

#[test]
fn probe_of_found_path_yields_its_time_and_size() {
    let md = metadata_from_probe(StatProbe::Found {
        size: 42,
        modified: Ok(1700000000),
    })
    .unwrap();
    assert_eq!(
        md,
        FileMetadata {
            modified_time: 1700000000,
            size: 42,
            exists: true
        }
    );
}

#[test]
fn probe_with_invalid_time_is_the_one_stat_error() {
    let err = metadata_from_probe(StatProbe::Found {
        size: 42,
        modified: Err("second time provided was later than self".to_string()),
    })
    .unwrap_err();
    assert_eq!(
        err,
        StoreError::TimeError {
            cause: "second time provided was later than self".to_string()
        }
    );
    assert_eq!(
        err.message(),
        "Invalid modification time: second time provided was later than self"
    );
}

#[test]
fn missing_snapshot_constructor_matches_the_zeroed_snapshot() {
    assert_eq!(
        FileMetadata::missing(),
        FileMetadata {
            modified_time: 0,
            size: 0,
            exists: false
        }
    );
}

#[test]
fn default_path_on_macos_needs_home() {
    let got = get_default_config_path(
        Platform::MacOs,
        Some("/Users/u".to_string()),
        None,
        None,
    );
    assert_eq!(got.unwrap(), "/Users/u/.config/ghostty/config");

    let err = get_default_config_path(Platform::MacOs, None, None, None);
    assert_eq!(err.unwrap_err(), "Could not determine home directory");
}

#[test]
fn default_path_on_linux_honours_the_config_base_but_still_needs_home() {
    let got = get_default_config_path(
        Platform::Linux,
        Some("/home/u".to_string()),
        None,
        None,
    );
    assert_eq!(got.unwrap(), "/home/u/.config/ghostty/config");

    let got = get_default_config_path(
        Platform::Linux,
        Some("/home/u".to_string()),
        Some("/custom/xdg".to_string()),
        None,
    );
    assert_eq!(got.unwrap(), "/custom/xdg/ghostty/config");

    let err = get_default_config_path(
        Platform::Linux,
        None,
        Some("/custom/xdg".to_string()),
        None,
    );
    assert_eq!(err.unwrap_err(), "Could not determine home directory");
}

#[test]
fn default_path_on_windows_needs_app_data() {
    let got = get_default_config_path(
        Platform::Windows,
        None,
        None,
        Some("C:\\Users\\u\\AppData\\Roaming".to_string()),
    );
    assert_eq!(got.unwrap(), "C:\\Users\\u\\AppData\\Roaming\\ghostty\\config");

    let err = get_default_config_path(Platform::Windows, None, None, None);
    assert_eq!(err.unwrap_err(), "Could not determine AppData directory");
}

#[test]
fn default_path_on_an_unknown_platform_fails() {
    let err = get_default_config_path(
        Platform::Other,
        Some("/home/u".to_string()),
        Some("/custom/xdg".to_string()),
        Some("C:\\AppData".to_string()),
    );
    assert_eq!(err.unwrap_err(), "Unsupported platform");
}

#[test]
fn io_error_message_embeds_path_and_cause() {
    let err = StoreError::IoError {
        path: "/tmp/cfg".to_string(),
        cause: "permission denied".to_string(),
    };
    assert_eq!(
        err.message(),
        "Failed to access file /tmp/cfg: permission denied"
    );
}
