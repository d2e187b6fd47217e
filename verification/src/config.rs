//! Configuration of the tool: the persisted application settings, the
//! storage settings, and the pure updates the configuration commands apply.
//!
//! Loading and storing the configuration file, and resolving the machine's
//! standard directories, happen in outside glue; the values arrive here as
//! plain strings.

use vstd::prelude::*;

verus! {

/// Default number of concurrent download tasks.
pub const DEFAULT_DOWNLOAD_THREAD_CONCURRENCY: usize = 100;

/// Default number of concurrent output tasks.
pub const DEFAULT_OUTPUT_THREAD_CONCURRENCY: usize = 10;

/// Default storage quota in bytes: twenty gigabytes.
pub const DEFAULT_MAX_STORAGE: u64 = 20_000_000_000;

/// The application's persisted settings.
pub struct ApplicationConfig {
    pub aws_profile: Option<String>,
    pub download_thread_concurrency: usize,
    pub output_thread_concurrency: usize,
    pub download_directory: String,
    pub aws_config_path: String,
    pub cache_directory: String,
    pub data_directory: String,
    pub home_directory: String,
    pub max_storage: u64,
}

impl ApplicationConfig {
    /// A fresh configuration over the machine's standard directories, with
    /// the default concurrency factors and quota and no profile selected.
    pub fn with_directories(
        download_directory: String,
        cache_directory: String,
        data_directory: String,
        aws_config_path: String,
        home_directory: String,
    ) -> (cfg: ApplicationConfig)
        ensures
            cfg.aws_profile is None,
            cfg.download_thread_concurrency == DEFAULT_DOWNLOAD_THREAD_CONCURRENCY,
            cfg.output_thread_concurrency == DEFAULT_OUTPUT_THREAD_CONCURRENCY,
            cfg.download_directory == download_directory,
            cfg.aws_config_path == aws_config_path,
            cfg.cache_directory == cache_directory,
            cfg.data_directory == data_directory,
            cfg.home_directory == home_directory,
            cfg.max_storage == DEFAULT_MAX_STORAGE,
    {
        ApplicationConfig {
            aws_profile: None,
            download_thread_concurrency: DEFAULT_DOWNLOAD_THREAD_CONCURRENCY,
            output_thread_concurrency: DEFAULT_OUTPUT_THREAD_CONCURRENCY,
            download_directory,
            aws_config_path,
            cache_directory,
            data_directory,
            home_directory,
            max_storage: DEFAULT_MAX_STORAGE,
        }
    }

    /// The directories the tool must ensure exist before working: the
    /// download, cache and data directories, in that order.
    pub fn directories_to_create(&self) -> (r: Vec<String>)
        ensures
            r@.len() == 3,
            r@[0] == self.download_directory,
            r@[1] == self.cache_directory,
            r@[2] == self.data_directory,
    {
        let mut dirs: Vec<String> = Vec::new();
        dirs.push(self.download_directory.clone());
        dirs.push(self.cache_directory.clone());
        dirs.push(self.data_directory.clone());
        dirs
    }
}

/// The storage settings: the quota and the managed download directory.
pub struct StorageConfig {
    pub max_storage: u64,
    pub download_directory: String,
}

impl Default for StorageConfig {
    /// One gibibyte of quota under the local fallback directory.
    fn default() -> (cfg: StorageConfig)
        ensures
            cfg.max_storage == 1_073_741_824u64,
            cfg.download_directory@ == "./temp/storage"@,
    {
        StorageConfig { max_storage: 1_073_741_824, download_directory: "./temp/storage".to_owned() }
    }
}

/// Sets the download directory.
pub fn set_download_directory(cfg: &mut ApplicationConfig, path: String)
    ensures
        final(cfg).download_directory == path,
        final(cfg).aws_profile == old(cfg).aws_profile,
        final(cfg).download_thread_concurrency == old(cfg).download_thread_concurrency,
        final(cfg).output_thread_concurrency == old(cfg).output_thread_concurrency,
        final(cfg).aws_config_path == old(cfg).aws_config_path,
        final(cfg).cache_directory == old(cfg).cache_directory,
        final(cfg).data_directory == old(cfg).data_directory,
        final(cfg).home_directory == old(cfg).home_directory,
        final(cfg).max_storage == old(cfg).max_storage,
{
    cfg.download_directory = path;
}

/// What parsing a human-readable byte size yields, if anything.
pub uninterp spec fn byte_size_of(s: Seq<char>) -> Option<u64>;

/// Relies on bytesize::ByteSize::from_str: parses a human-readable size
/// ("1024", "20GB", "1.5 MiB") into a byte count. The result is a function
/// of the text alone.
#[verifier::external_body]
fn parse_byte_size(s: &str) -> (r: Option<u64>)
    ensures
        r == byte_size_of(s@),
{
    match s.parse::<bytesize::ByteSize>() {
        Ok(v) => Some(v.as_u64()),
        Err(_) => None,
    }
}

/// Sets the storage quota from a human-readable size. Returns whether the
/// size parsed; on failure the configuration is unchanged.
pub fn set_max_storage(cfg: &mut ApplicationConfig, size: &str) -> (ok: bool)
    ensures
        ok <==> byte_size_of(size@) is Some,
        (match byte_size_of(size@) {
            Some(n) => final(cfg).max_storage == n,
            None => final(cfg).max_storage == old(cfg).max_storage,
        }),
        final(cfg).aws_profile == old(cfg).aws_profile,
        final(cfg).download_thread_concurrency == old(cfg).download_thread_concurrency,
        final(cfg).output_thread_concurrency == old(cfg).output_thread_concurrency,
        final(cfg).download_directory == old(cfg).download_directory,
        final(cfg).aws_config_path == old(cfg).aws_config_path,
        final(cfg).cache_directory == old(cfg).cache_directory,
        final(cfg).data_directory == old(cfg).data_directory,
        final(cfg).home_directory == old(cfg).home_directory,
{
    match parse_byte_size(size) {
        Some(n) => {
            cfg.max_storage = n;
            true
        },
        None => false,
    }
}

/// Records the selected profile as the default.
pub fn apply_profile_selection(cfg: &mut ApplicationConfig, profile: String)
    ensures
        final(cfg).aws_profile == Some(profile),
        final(cfg).download_thread_concurrency == old(cfg).download_thread_concurrency,
        final(cfg).output_thread_concurrency == old(cfg).output_thread_concurrency,
        final(cfg).download_directory == old(cfg).download_directory,
        final(cfg).aws_config_path == old(cfg).aws_config_path,
        final(cfg).cache_directory == old(cfg).cache_directory,
        final(cfg).data_directory == old(cfg).data_directory,
        final(cfg).home_directory == old(cfg).home_directory,
        final(cfg).max_storage == old(cfg).max_storage,
{
    cfg.aws_profile = Some(profile);
}

/// The profile the client is built with: an explicit argument wins over the
/// configured default.
pub fn choose_profile(argument: Option<String>, configured: Option<String>) -> (r: Option<String>)
    ensures
        r == (if argument is Some {
            argument
        } else {
            configured
        }),
{
    match argument {
        Some(p) => Some(p),
        None => configured,
    }
}

/// The command-line surface of the tool, as plain data.
#[derive(Clone, Debug)]
pub struct CliArgs {
    pub cmd: Commands,
}

/// The tool's commands.
#[derive(Clone, Debug)]
pub enum Commands {
    Preview { bucket: String, prefix: String },
    Fetch { bucket: String, prefix: String },
    Output,
    Config(ConfigArgs),
    Reset,
}

/// The configuration subcommands.
#[derive(Clone, Debug)]
pub struct ConfigArgs {
    pub cmd: Option<ConfigCommands>,
}

#[derive(Clone, Debug)]
pub enum ConfigCommands {
    SetDownloadDir { path: String },
    SetMaxStorage { size: u64 },
    List,
}

} // verus!
