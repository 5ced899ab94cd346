use snapshot_downloader::archive::{archive_format, binary_handling, ArchiveFormat, BinaryHandling, ExtractError};
use snapshot_downloader::config::{Config, ConfigError, S3Config};
use snapshot_downloader::paths::join_path;
use snapshot_downloader::retry::DownloadRetryConfig;
use snapshot_downloader::runner::{binary_path, genesis_path, start_command_line, PostStartWatch};
use snapshot_downloader::toml_modifier::TomlModifier;

fn config(url: &str, urls: &[&str], filename: Option<&str>) -> Config {
    Config {
        snapshot_url: url.to_string(),
        snapshot_urls: urls.iter().map(|s| s.to_string()).collect(),
        snapshot_filename: filename.map(|s| s.to_string()),
        binary_url: "https://h/bin/noded".to_string(),
        binary_relative_path: "bin/noded".to_string(),
        chain_id: "test-1".to_string(),
        moniker: "node".to_string(),
        post_snapshot_download_command: None,
        post_snapshot_extract_command: None,
        pre_start_command: None,
        post_start_command: None,
        post_start_pattern: None,
        stop_after_post_start: false,
        chain_home_dir: None,
        addrbook_url: None,
        download_retry: DownloadRetryConfig::default(),
        s3: Some(S3Config { region: Some("us-east-1".to_string()) }),
        base_dir: String::new(),
        downloads_dir: String::new(),
        workspace_dir: String::new(),
        home_dir: String::new(),
    }
}

#[test]
fn snapshot_urls_prefer_parts() {
    let c = config("https://h/single.tar.gz", &["https://h/part-a", "https://h/part-b"], Some("all.tar.gz"));
    assert_eq!(c.get_snapshot_urls(), vec!["https://h/part-a".to_string(), "https://h/part-b".to_string()]);
    let c = config("https://h/single.tar.gz", &[], None);
    assert_eq!(c.get_snapshot_urls(), vec!["https://h/single.tar.gz".to_string()]);
    let c = config("", &[], None);
    assert!(c.get_snapshot_urls().is_empty());
}

#[test]
fn snapshot_filename_rules() {
    let c = config("https://h/dir/single.tar.gz", &[], None);
    assert_eq!(c.get_snapshot_filename(), Ok("single.tar.gz".to_string()));
    let c = config("", &["https://h/part-a", "https://h/part-b"], Some("all.tar.gz"));
    assert_eq!(c.get_snapshot_filename(), Ok("all.tar.gz".to_string()));
    let c = config("", &["https://h/x/part-a"], None);
    assert_eq!(c.get_snapshot_filename(), Ok("part-a".to_string()));
    let c = config("", &["https://h/part-a", "https://h/part-b"], None);
    assert_eq!(c.get_snapshot_filename(), Err(ConfigError::MissingSnapshotFilename));
    let c = config("", &[], None);
    assert_eq!(c.get_snapshot_filename(), Err(ConfigError::NoSnapshotUrls));
}

#[test]
fn validation_requires_a_name_for_parts() {
    assert_eq!(config("", &["a", "b"], None).validate(), Err(ConfigError::MissingSnapshotFilename));
    assert_eq!(config("", &["a"], None).validate(), Err(ConfigError::MissingSnapshotFilename));
    assert_eq!(config("", &["a", "b"], Some("f")).validate(), Ok(()));
    assert_eq!(config("u", &[], None).validate(), Ok(()));
}

#[test]
fn directories_are_laid_out_under_home() {
    let mut c = config("u", &[], None);
    c.download_retry.max_retries = 0;
    c.download_retry.initial_delay_secs = 9;
    c.resolve_directories("/home/me");
    assert_eq!(c.base_dir, "/home/me/.snapshot-downloader");
    assert_eq!(c.downloads_dir, "/home/me/.snapshot-downloader/downloads");
    assert_eq!(c.workspace_dir, "/home/me/.snapshot-downloader/workspace");
    assert_eq!(c.home_dir, "/home/me/.snapshot-downloader/workspace/home");
    assert_eq!(c.download_retry, DownloadRetryConfig::default());

    let mut c = config("u", &[], None);
    c.chain_home_dir = Some("/data/node".to_string());
    c.download_retry.max_retries = 2;
    c.resolve_directories("/root/");
    assert_eq!(c.base_dir, "/root/.snapshot-downloader");
    assert_eq!(c.home_dir, "/data/node");
    assert_eq!(c.download_retry.max_retries, 2);
}

#[test]
fn paths_are_joined_with_one_separator() {
    assert_eq!(join_path("a", "b"), "a/b");
    assert_eq!(join_path("a/", "b"), "a/b");
    assert_eq!(join_path("", "b"), "b");
    assert_eq!(genesis_path("/n"), "/n/config/genesis.json");
    assert_eq!(binary_path("/w", "bin/noded"), "/w/bin/noded");
    assert_eq!(start_command_line("/w/bin/noded", "/n"), "/w/bin/noded start --home /n");
}

#[test]
fn archive_formats_by_extension() {
    assert_eq!(archive_format("/d/snap.tar.gz"), Ok(ArchiveFormat::TarGz));
    assert_eq!(archive_format("snap.tgz"), Ok(ArchiveFormat::TarGz));
    assert_eq!(archive_format("snap.tar.lz4"), Ok(ArchiveFormat::TarLz4));
    assert_eq!(archive_format("snap.tar.zst"), Ok(ArchiveFormat::TarZst));
    assert_eq!(archive_format("snap.zip"), Err(ExtractError::UnsupportedFormat));
    assert_eq!(archive_format("/d.x/snapshot"), Err(ExtractError::NoExtension));
    assert_eq!(archive_format("/d/.gz"), Err(ExtractError::NoExtension));
}

#[test]
fn binaries_are_unpacked_or_installed() {
    assert_eq!(binary_handling("noded.tar.gz"), BinaryHandling::Unpack(ArchiveFormat::TarGz));
    assert_eq!(binary_handling("noded"), BinaryHandling::Install);
    assert_eq!(binary_handling("noded-v1.2"), BinaryHandling::Install);
}

#[test]
fn post_start_watch_fires_once() {
    let mut w = PostStartWatch::new(None);
    assert_eq!(w.pattern, "committed state");
    assert!(!w.observe("starting node"));
    assert!(w.observe("INF committed state height=1"));
    assert!(!w.observe("INF committed state height=2"));
    let mut w = PostStartWatch::new(Some("ready"));
    assert!(w.observe("node ready"));
}

#[test]
fn toml_files_live_in_the_config_directory() {
    let m = TomlModifier::new("/tmp");
    assert_eq!(m.home_dir(), "/tmp");
    assert_eq!(m.app_toml_path(), "/tmp/config/app.toml");
    assert_eq!(m.config_toml_path(), "/tmp/config/config.toml");
}
