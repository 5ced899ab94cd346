//! The settings of a run, as the engine reads them.

use vstd::prelude::*;
use crate::paths::{join_path, join_spec};
use crate::retry::DownloadRetryConfig;
use crate::source::{file_name_from_url, file_name_spec};

verus! {

/// Object-storage settings.
#[derive(Clone, Debug)]
pub struct S3Config {
    /// Region of the bucket (such as `us-east-1`); the environment's default when absent.
    pub region: Option<String>,
}

/// A configuration that cannot be acted upon.
#[derive(Clone, Copy, Debug, PartialEq, Eq)]
pub enum ConfigError {
    /// Several snapshot parts are configured but no name for the assembled file.
    MissingSnapshotFilename,
    /// No snapshot URL is configured at all.
    NoSnapshotUrls,
}

/// The settings of a run.
#[derive(Clone, Debug)]
pub struct Config {
    /// URL of a single-file snapshot.
    pub snapshot_url: String,
    /// URLs of the parts of a multi-part snapshot, in order.
    pub snapshot_urls: Vec<String>,
    /// Name of the assembled file of a multi-part snapshot.
    pub snapshot_filename: Option<String>,
    pub binary_url: String,
    pub binary_relative_path: String,
    pub chain_id: String,
    pub moniker: String,
    pub post_snapshot_download_command: Option<String>,
    pub post_snapshot_extract_command: Option<String>,
    pub pre_start_command: Option<String>,
    pub post_start_command: Option<String>,
    pub post_start_pattern: Option<String>,
    pub stop_after_post_start: bool,
    pub chain_home_dir: Option<String>,
    pub addrbook_url: Option<String>,
    pub download_retry: DownloadRetryConfig,
    pub s3: Option<S3Config>,
    pub base_dir: String,
    pub downloads_dir: String,
    pub workspace_dir: String,
    pub home_dir: String,
}

/// The texts that a list of strings holds.
pub open spec fn texts(v: Seq<String>) -> Seq<Seq<char>> {
    v.map_values(|s: String| s@)
}

pub open spec fn opt_text(o: Option<String>) -> Option<Seq<char>> {
    match o {
        Some(s) => Some(s@),
        None => None,
    }
}

/// The snapshot URLs to fetch: the parts when any are configured, else the
/// single URL when it is not empty, else none.
pub open spec fn snapshot_urls_spec(c: Config) -> Seq<Seq<char>> {
    if c.snapshot_urls@.len() > 0 {
        texts(c.snapshot_urls@)
    } else if c.snapshot_url@.len() > 0 {
        seq![c.snapshot_url@]
    } else {
        Seq::empty()
    }
}

/// The name of the local snapshot file: the final segment of the only URL,
/// or the configured name when there are several parts.
pub open spec fn snapshot_filename_spec(c: Config) -> Result<Seq<char>, ConfigError> {
    let urls = snapshot_urls_spec(c);
    if urls.len() == 0 {
        Err(ConfigError::NoSnapshotUrls)
    } else if urls.len() == 1 {
        Ok(file_name_spec(urls[0]))
    } else {
        match c.snapshot_filename {
            Some(f) => Ok(f@),
            None => Err(ConfigError::MissingSnapshotFilename),
        }
    }
}

/// Name, under the user's home, of the directory that holds everything.
pub open spec fn base_dir_name() -> Seq<char> {
    seq!['.', 's', 'n', 'a', 'p', 's', 'h', 'o', 't', '-', 'd', 'o', 'w', 'n', 'l', 'o', 'a', 'd', 'e', 'r']
}

fn copy_texts(v: &Vec<String>) -> (r: Vec<String>)
    ensures
        texts(r@) == texts(v@),
{
    let mut r: Vec<String> = Vec::new();
    let mut i: usize = 0;
    while i < v.len()
        invariant
            i <= v.len(),
            r@.len() == i,
            forall|j: int| 0 <= j < i ==> (#[trigger] r@[j])@ == v@[j]@,
        decreases v.len() - i,
    {
        r.push(v[i].clone());
        i = i + 1;
    }
    assert(texts(r@) =~= texts(v@));
    r
}

impl Config {
    /// The snapshot URLs to fetch, in order.
    pub fn get_snapshot_urls(&self) -> (r: Vec<String>)
        ensures
            texts(r@) == snapshot_urls_spec(*self),
    {
        if self.snapshot_urls.len() > 0 {
            copy_texts(&self.snapshot_urls)
        } else if self.snapshot_url.as_str().unicode_len() > 0 {
            let r = vec![self.snapshot_url.clone()];
            assert(texts(r@) =~= seq![self.snapshot_url@]);
            r
        } else {
            let r: Vec<String> = Vec::new();
            assert(texts(r@) =~= Seq::<Seq<char>>::empty());
            r
        }
    }

    /// The name of the local snapshot file.
    pub fn get_snapshot_filename(&self) -> (r: Result<String, ConfigError>)
        ensures
            match r {
                Ok(f) => snapshot_filename_spec(*self) == Ok::<Seq<char>, ConfigError>(f@),
                Err(e) => snapshot_filename_spec(*self) == Err::<Seq<char>, ConfigError>(e),
            },
    {
        let urls = self.get_snapshot_urls();
        proof {
            assert(urls@.len() == texts(urls@).len());
        }
        if urls.len() == 0 {
            Err(ConfigError::NoSnapshotUrls)
        } else if urls.len() == 1 {
            proof {
                assert(texts(urls@)[0] == urls@[0]@);
            }
            Ok(file_name_from_url(urls[0].as_str()))
        } else {
            match &self.snapshot_filename {
                Some(f) => Ok(f.clone()),
                None => Err(ConfigError::MissingSnapshotFilename),
            }
        }
    }

    /// Refuses a configuration with snapshot parts but no name for their assembly.
    pub fn validate(&self) -> (r: Result<(), ConfigError>)
        ensures
            r is Err <==> (self.snapshot_urls@.len() > 0 && self.snapshot_filename is None),
            r is Err ==> r == Err::<(), ConfigError>(ConfigError::MissingSnapshotFilename),
    {
        if self.snapshot_urls.len() > 0 && self.snapshot_filename.is_none() {
            Err(ConfigError::MissingSnapshotFilename)
        } else {
            Ok(())
        }
    }

    /// Lays out the working directories under the user's home `user_home`,
    /// and replaces a retry policy without retries by the defaults.
    pub fn resolve_directories(&mut self, user_home: &str)
        ensures
            final(self).base_dir@ == join_spec(user_home@, base_dir_name()),
            final(self).downloads_dir@ == join_spec(
                final(self).base_dir@,
                seq!['d', 'o', 'w', 'n', 'l', 'o', 'a', 'd', 's'],
            ),
            final(self).workspace_dir@ == join_spec(
                final(self).base_dir@,
                seq!['w', 'o', 'r', 'k', 's', 'p', 'a', 'c', 'e'],
            ),
            final(self).home_dir@ == (match old(self).chain_home_dir {
                Some(h) => h@,
                None => join_spec(final(self).workspace_dir@, seq!['h', 'o', 'm', 'e']),
            }),
            final(self).download_retry == (if old(self).download_retry.max_retries == 0 {
                DownloadRetryConfig {
                    max_retries: 5,
                    initial_delay_secs: 1,
                    max_delay_secs: 300,
                    backoff_multiplier: 2,
                }
            } else {
                old(self).download_retry
            }),
            final(self).snapshot_url == old(self).snapshot_url,
            final(self).snapshot_urls == old(self).snapshot_urls,
            final(self).snapshot_filename == old(self).snapshot_filename,
            final(self).chain_home_dir == old(self).chain_home_dir,
    {
        proof {
            reveal_strlit(".snapshot-downloader");
            reveal_strlit("downloads");
            reveal_strlit("workspace");
            reveal_strlit("home");
        }
        self.base_dir = join_path(user_home, ".snapshot-downloader");
        self.downloads_dir = join_path(self.base_dir.as_str(), "downloads");
        self.workspace_dir = join_path(self.base_dir.as_str(), "workspace");
        self.home_dir = match &self.chain_home_dir {
            Some(h) => h.clone(),
            None => join_path(self.workspace_dir.as_str(), "home"),
        };
        if self.download_retry.max_retries == 0 {
            self.download_retry = DownloadRetryConfig::default();
        }
    }
}

} // verus!
