use dab_s3_logs::config::{
    apply_profile_selection, choose_profile, set_download_directory, set_max_storage,
    ApplicationConfig, StorageConfig,
};
use dab_s3_logs::errors::{GetAwsConfigFilePathError, GetProfilesError};
use dab_s3_logs::ini_profiles::{get_aws_profiles, get_config_file_path};

fn sample_config() -> ApplicationConfig {
    ApplicationConfig::with_directories(
        String::from("/downloads"),
        String::from("/cache"),
        String::from("/data"),
        String::from("/home/u/.aws/config"),
        String::from("/home/u"),
    )
}

#[test]
fn with_directories_uses_defaults() {
    let cfg = sample_config();
    assert_eq!(cfg.aws_profile, None);
    assert_eq!(cfg.download_thread_concurrency, 100);
    assert_eq!(cfg.output_thread_concurrency, 10);
    assert_eq!(cfg.max_storage, 20_000_000_000);
    assert_eq!(cfg.download_directory, "/downloads");
}

#[test]
fn storage_config_default_values() {
    let cfg = StorageConfig::default();
    assert_eq!(cfg.max_storage, 1_073_741_824);
    assert_eq!(cfg.download_directory, "./temp/storage");
}

#[test]
fn set_download_directory_updates_only_that_field() {
    let mut cfg = sample_config();
    set_download_directory(&mut cfg, String::from("/elsewhere"));
    assert_eq!(cfg.download_directory, "/elsewhere");
    assert_eq!(cfg.cache_directory, "/cache");
    assert_eq!(cfg.max_storage, 20_000_000_000);
}

#[test]
fn set_max_storage_parses_plain_bytes() {
    let mut cfg = sample_config();
    assert!(set_max_storage(&mut cfg, "1024"));
    assert_eq!(cfg.max_storage, 1024);
}

#[test]
fn set_max_storage_parses_units() {
    let mut cfg = sample_config();
    assert!(set_max_storage(&mut cfg, "20GB"));
    assert_eq!(cfg.max_storage, 20_000_000_000);
}

#[test]
fn set_max_storage_rejects_nonsense() {
    let mut cfg = sample_config();
    assert!(!set_max_storage(&mut cfg, "plenty"));
    assert_eq!(cfg.max_storage, 20_000_000_000);
}

#[test]
fn apply_profile_selection_sets_default_profile() {
    let mut cfg = sample_config();
    apply_profile_selection(&mut cfg, String::from("dev"));
    assert_eq!(cfg.aws_profile, Some(String::from("dev")));
}

#[test]
fn explicit_profile_argument_wins() {
    assert_eq!(
        choose_profile(Some(String::from("cli")), Some(String::from("cfg"))),
        Some(String::from("cli"))
    );
    assert_eq!(
        choose_profile(None, Some(String::from("cfg"))),
        Some(String::from("cfg"))
    );
    assert_eq!(choose_profile(None, None), None);
}

#[test]
fn directories_to_create_lists_all_three() {
    let cfg = sample_config();
    let dirs = cfg.directories_to_create();
    assert_eq!(dirs, vec!["/downloads", "/cache", "/data"]);
}

#[test]
fn ini_profiles_from_well_formed_text() {
    let text = "[profile dev]\nregion=eu-west-1\n\n[prod]\nregion=us-east-1\n";
    let profiles = get_aws_profiles(text).unwrap();
    assert_eq!(profiles, vec!["dev", "prod"]);
}

#[test]
fn ini_parse_failure_is_reported() {
    let text = "[unclosed\nkey=value";
    assert_eq!(get_aws_profiles(text), Err(GetProfilesError::FileError));
}

#[test]
fn config_file_path_under_home() {
    assert_eq!(
        get_config_file_path(Some(String::from("/home/u"))),
        Ok(String::from("/home/u/.aws/config"))
    );
    assert_eq!(
        get_config_file_path(None),
        Err(GetAwsConfigFilePathError::HomeDirNotFound)
    );
}
