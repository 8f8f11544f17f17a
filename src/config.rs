//! Server configuration: the sections of the configuration document, their
//! defaults, command-line overrides and validation.
use vstd::prelude::*;
use std::time::Duration;
use crate::text::{count_digits, decimal, digit_count, push_decimal, push_text};

verus! {

/// Listening address and CORS switch.
pub struct ServerConfig {
    pub port: Option<u16>,
    pub host: Option<String>,
    pub cors: Option<bool>,
}

/// Location of the capture catalog.
pub struct DatabaseConfig {
    pub path: String,
}

/// Image roots, in priority order.
pub struct ImagesConfig {
    pub directories: Vec<String>,
}

/// Cache location and lifetimes, the latter as human durations like `5m`.
pub struct CacheConfig {
    pub directory: Option<String>,
    pub file_ttl: Option<String>,
    pub directory_ttl: Option<String>,
}

/// Background pre-generation of previews.
#[derive(Clone, Copy, Debug, PartialEq, Eq, Structural)]
pub struct PregenerationConfig {
    pub enabled: Option<bool>,
    pub screen: Option<bool>,
    pub large: Option<bool>,
    pub workers: Option<usize>,
}

/// The whole configuration document.
pub struct Config {
    pub server: ServerConfig,
    pub database: DatabaseConfig,
    pub images: ImagesConfig,
    pub cache: CacheConfig,
    pub pregeneration: Option<PregenerationConfig>,
}

pub const DEFAULT_PORT: u16 = 3000;

pub const DEFAULT_TTL_SECS: u64 = 300;

impl Default for ServerConfig {
    fn default() -> (r: Self)
        ensures
            r.port == Some(DEFAULT_PORT),
            r.host matches Some(h) && h@ == "0.0.0.0"@,
            r.cors == Some(true),
    {
        ServerConfig {
            port: Some(DEFAULT_PORT),
            host: Some(String::from_str("0.0.0.0")),
            cors: Some(true),
        }
    }
}

impl Default for CacheConfig {
    fn default() -> (r: Self)
        ensures
            r.directory matches Some(d) && d@ == "./cache"@,
            r.file_ttl matches Some(t) && t@ == "5m"@,
            r.directory_ttl matches Some(t) && t@ == "5m"@,
    {
        CacheConfig {
            directory: Some(String::from_str("./cache")),
            file_ttl: Some(String::from_str("5m")),
            directory_ttl: Some(String::from_str("5m")),
        }
    }
}

impl Default for Config {
    fn default() -> (r: Self)
        ensures
            r.server.port == Some(DEFAULT_PORT),
            r.server.host matches Some(h) && h@ == "0.0.0.0"@,
            r.server.cors == Some(true),
            r.database.path@ == "schedulerdb.sqlite"@,
            r.images.directories@.len() == 1,
            r.images.directories@[0]@ == "./images"@,
            r.cache.directory matches Some(d) && d@ == "./cache"@,
            r.cache.file_ttl matches Some(t) && t@ == "5m"@,
            r.cache.directory_ttl matches Some(t) && t@ == "5m"@,
            r.pregeneration is None,
    {
        let mut dirs: Vec<String> = Vec::new();
        dirs.push(String::from_str("./images"));
        Config {
            server: ServerConfig::default(),
            database: DatabaseConfig { path: String::from_str("schedulerdb.sqlite") },
            images: ImagesConfig { directories: dirs },
            cache: CacheConfig::default(),
            pregeneration: None,
        }
    }
}

/// Seconds and sub-second nanoseconds of a human duration such as `2h30m`;
/// none when the text is not one.
pub uninterp spec fn human_duration(text: Seq<char>) -> Option<(u64, u32)>;

/// Relies on `humantime::parse_duration`, split by `Duration::as_secs` and
/// `Duration::subsec_nanos` (always below one billion). The parser panics
/// only when its running total reaches the largest number of seconds; with at
/// most eleven digits every number in the text is below 10^11, so the total
/// stays below 10^11 years' worth of seconds plus one year per number, far
/// short of that limit.
#[verifier::external_body]
fn parse_duration_parts(text: &str) -> (r: Option<(u64, u32)>)
    requires
        digit_count(text@) <= MAX_DURATION_DIGITS,
    ensures
        r == human_duration(text@),
        r matches Some(p) ==> p.1 < 1_000_000_000,
{
    humantime::parse_duration(text).ok().map(|d| (d.as_secs(), d.subsec_nanos()))
}

/// The most digits a duration text may hold to be read.
pub const MAX_DURATION_DIGITS: usize = 11;

/// A duration text read as seconds and nanoseconds: none when it is not a
/// human duration or holds more than eleven digits.
pub open spec fn read_duration(text: Seq<char>) -> Option<(u64, u32)> {
    if digit_count(text) <= MAX_DURATION_DIGITS {
        human_duration(text)
    } else {
        None
    }
}

/// A duration text read as seconds and nanoseconds: none when it is not a
/// human duration or holds more than eleven digits.
pub fn read_duration_text(text: &str) -> (r: Option<(u64, u32)>)
    ensures
        r == read_duration(text@),
        r matches Some(p) ==> p.1 < 1_000_000_000,
{
    if count_digits(text) <= MAX_DURATION_DIGITS {
        parse_duration_parts(text)
    } else {
        None
    }
}

/// The duration of the given seconds and nanoseconds.
pub uninterp spec fn duration_of(secs: u64, nanos: u32) -> Duration;

/// Relies on `Duration::new`, which panics only when the nanoseconds carry
/// past the largest number of seconds.
pub assume_specification[ Duration::new ](secs: u64, nanos: u32) -> (r: Duration)
    requires
        nanos < 1_000_000_000,
    ensures
        r == duration_of(secs, nanos),
;

/// The lifetime that a configured duration text gives: the text, or `5m`
/// when absent, read as a human duration of at most eleven digits; five
/// minutes when unreadable.
pub open spec fn ttl_parts(text: Option<String>) -> (u64, u32) {
    let t = match text {
        Some(s) => s@,
        None => "5m"@,
    };
    match read_duration(t) {
        Some(p) => p,
        None => (DEFAULT_TTL_SECS, 0),
    }
}

fn ttl_parts_of(text: &Option<String>) -> (r: (u64, u32))
    ensures
        r == ttl_parts(*text),
        r.1 < 1_000_000_000,
{
    let parsed = match text {
        Some(s) => read_duration_text(s.as_str()),
        None => read_duration_text("5m"),
    };
    match parsed {
        Some(p) => p,
        None => (DEFAULT_TTL_SECS, 0),
    }
}

/// What a path given in the configuration is on disk.
#[derive(Clone, Copy, Debug, PartialEq, Eq, Structural)]
pub enum PathState {
    Missing,
    File,
    Directory,
}

/// Why a configuration is refused.
pub enum ConfigError {
    DatabaseMissing(String),
    NoImageDirectories,
    ImageDirectoryMissing(String),
    NotADirectory(String),
    PortTooLow(u16),
    ZeroTtl,
    InvalidFileTtl(String),
    InvalidDirectoryTtl(String),
}

impl ConfigError {
    /// The message reported for this error.
    pub fn message(&self) -> (r: String)
        ensures
            *self matches ConfigError::DatabaseMissing(p) ==> r@ == "Database file does not exist: "@ + p@,
            *self matches ConfigError::NoImageDirectories ==> r@ == "At least one image directory must be specified"@,
            *self matches ConfigError::ImageDirectoryMissing(d) ==> r@ == "Image directory does not exist: "@ + d@,
            *self matches ConfigError::NotADirectory(d) ==> r@ == "Image path is not a directory: "@ + d@,
            *self matches ConfigError::PortTooLow(p) ==> r@ == "Port must be 1024 or higher, got: "@ + decimal(p as nat),
            *self matches ConfigError::ZeroTtl ==> r@ == "Cache TTL values must be greater than 0"@,
            *self matches ConfigError::InvalidFileTtl(t) ==> r@ == "Invalid file_ttl format: "@ + t@,
            *self matches ConfigError::InvalidDirectoryTtl(t) ==> r@ == "Invalid directory_ttl format: "@ + t@,
    {
        let mut r = String::new();
        match self {
            ConfigError::DatabaseMissing(p) => {
                push_text(&mut r, "Database file does not exist: ");
                push_text(&mut r, p.as_str());
            },
            ConfigError::NoImageDirectories => {
                push_text(&mut r, "At least one image directory must be specified");
            },
            ConfigError::ImageDirectoryMissing(d) => {
                push_text(&mut r, "Image directory does not exist: ");
                push_text(&mut r, d.as_str());
            },
            ConfigError::NotADirectory(d) => {
                push_text(&mut r, "Image path is not a directory: ");
                push_text(&mut r, d.as_str());
            },
            ConfigError::PortTooLow(p) => {
                push_text(&mut r, "Port must be 1024 or higher, got: ");
                push_decimal(&mut r, *p as u64);
            },
            ConfigError::ZeroTtl => {
                push_text(&mut r, "Cache TTL values must be greater than 0");
            },
            ConfigError::InvalidFileTtl(t) => {
                push_text(&mut r, "Invalid file_ttl format: ");
                push_text(&mut r, t.as_str());
            },
            ConfigError::InvalidDirectoryTtl(t) => {
                push_text(&mut r, "Invalid directory_ttl format: ");
                push_text(&mut r, t.as_str());
            },
        }
        r
    }
}

/// Index of the first image root that is missing or not a directory.
pub open spec fn first_bad_root(states: Seq<PathState>, i: int) -> bool {
    0 <= i < states.len() && states[i] != PathState::Directory
        && forall|j: int| 0 <= j < i ==> states[j] == PathState::Directory
}

/// Whether a configured duration text is present and unreadable.
pub open spec fn unreadable(text: Option<String>) -> bool {
    text matches Some(s) && read_duration(s@) is None
}

impl Config {
    /// Applies command-line values over the file's: each given value wins,
    /// except an empty list of image roots.
    pub fn merge_with_cli(
        &mut self,
        database_path: Option<String>,
        image_dirs: Option<Vec<String>>,
        port: Option<u16>,
        cache_dir: Option<String>,
    )
        ensures
            final(self).database.path == (match database_path {
                Some(p) => p,
                None => old(self).database.path,
            }),
            final(self).images.directories@ == (match image_dirs {
                Some(d) => if d@.len() > 0 { d@ } else { old(self).images.directories@ },
                None => old(self).images.directories@,
            }),
            final(self).server.port == (match port {
                Some(p) => Some(p),
                None => old(self).server.port,
            }),
            final(self).cache.directory == (match cache_dir {
                Some(c) => Some(c),
                None => old(self).cache.directory,
            }),
            final(self).server.host == old(self).server.host,
            final(self).server.cors == old(self).server.cors,
            final(self).cache.file_ttl == old(self).cache.file_ttl,
            final(self).cache.directory_ttl == old(self).cache.directory_ttl,
            final(self).pregeneration == old(self).pregeneration,
    {
        if let Some(db_path) = database_path {
            self.database.path = db_path;
        }
        if let Some(dirs) = image_dirs {
            if dirs.len() > 0 {
                self.images.directories = dirs;
            }
        }
        if let Some(cli_port) = port {
            self.server.port = Some(cli_port);
        }
        if let Some(cache) = cache_dir {
            self.cache.directory = Some(cache);
        }
    }

    /// The port, 3000 when not set.
    pub fn get_port(&self) -> (r: u16)
        ensures
            r == (match self.server.port {
                Some(p) => p,
                None => DEFAULT_PORT,
            }),
    {
        match self.server.port {
            Some(p) => p,
            None => DEFAULT_PORT,
        }
    }

    /// The host, `0.0.0.0` when not set.
    pub fn get_host(&self) -> (r: String)
        ensures
            r@ == (match self.server.host {
                Some(h) => h@,
                None => "0.0.0.0"@,
            }),
    {
        match &self.server.host {
            Some(h) => h.clone(),
            None => String::from_str("0.0.0.0"),
        }
    }

    /// Whether CORS is on; on when not set.
    pub fn get_cors_enabled(&self) -> (r: bool)
        ensures
            r == (match self.server.cors {
                Some(c) => c,
                None => true,
            }),
    {
        match self.server.cors {
            Some(c) => c,
            None => true,
        }
    }

    /// The cache directory, `./cache` when not set.
    pub fn get_cache_directory(&self) -> (r: String)
        ensures
            r@ == (match self.cache.directory {
                Some(d) => d@,
                None => "./cache"@,
            }),
    {
        match &self.cache.directory {
            Some(d) => d.clone(),
            None => String::from_str("./cache"),
        }
    }

    /// Lifetime of the file-availability cache.
    pub fn get_file_ttl(&self) -> (r: Duration)
        ensures
            r == duration_of(ttl_parts(self.cache.file_ttl).0, ttl_parts(self.cache.file_ttl).1),
    {
        let (s, n) = ttl_parts_of(&self.cache.file_ttl);
        Duration::new(s, n)
    }

    /// Lifetime of the directory-tree cache.
    pub fn get_directory_ttl(&self) -> (r: Duration)
        ensures
            r == duration_of(
                ttl_parts(self.cache.directory_ttl).0,
                ttl_parts(self.cache.directory_ttl).1,
            ),
    {
        let (s, n) = ttl_parts_of(&self.cache.directory_ttl);
        Duration::new(s, n)
    }

    /// The pre-generation section, if present.
    pub fn get_pregeneration(&self) -> (r: Option<&PregenerationConfig>)
        ensures
            match r {
                Some(p) => self.pregeneration == Some(*p),
                None => self.pregeneration is None,
            },
    {
        match &self.pregeneration {
            Some(p) => Some(p),
            None => None,
        }
    }

    /// Checks the configuration against what was found on disk: whether the
    /// catalog file exists, and what each image root is, in order. Refuses, in
    /// this order, a missing catalog, no roots, a root that is missing or not a
    /// directory, a port below 1024, a zero lifetime, and an unreadable lifetime.
    pub fn validate(&self, database_exists: bool, root_states: &Vec<PathState>) -> (r: Result<
        (),
        ConfigError,
    >)
        requires
            root_states@.len() == self.images.directories@.len(),
        ensures
            !database_exists ==> (r matches Err(ConfigError::DatabaseMissing(p)) && p@ == self.database.path@),
            database_exists && self.images.directories@.len() == 0 ==> r matches Err(ConfigError::NoImageDirectories),
            database_exists ==> forall|i: int| #[trigger] first_bad_root(root_states@, i) ==> (
                root_states@[i] == PathState::Missing ==> (r matches Err(ConfigError::ImageDirectoryMissing(d)) && d@ == self.images.directories@[i]@)) && (
                root_states@[i] == PathState::File ==> (r matches Err(ConfigError::NotADirectory(d)) && d@ == self.images.directories@[i]@)),
            ({
                let ok_so_far = database_exists && self.images.directories@.len() > 0
                    && forall|i: int| 0 <= i < root_states@.len() ==> root_states@[i] == PathState::Directory;
                let port = match self.server.port { Some(p) => p, None => DEFAULT_PORT };
                let zero = ttl_parts(self.cache.file_ttl) == (0u64, 0u32) || ttl_parts(self.cache.directory_ttl) == (0u64, 0u32);
                ok_so_far ==> (
                    (port < 1024 ==> (r matches Err(ConfigError::PortTooLow(p)) && p == port))
                    && (port >= 1024 && zero ==> r matches Err(ConfigError::ZeroTtl))
                    && (port >= 1024 && !zero && unreadable(self.cache.file_ttl) ==> (r matches Err(ConfigError::InvalidFileTtl(t)) && Some(t) == self.cache.file_ttl))
                    && (port >= 1024 && !zero && !unreadable(self.cache.file_ttl) && unreadable(self.cache.directory_ttl) ==> (r matches Err(ConfigError::InvalidDirectoryTtl(t)) && Some(t) == self.cache.directory_ttl))
                    && (port >= 1024 && !zero && !unreadable(self.cache.file_ttl) && !unreadable(self.cache.directory_ttl) ==> r is Ok)
                )
            }),
            r is Ok ==> database_exists,
    {
        if !database_exists {
            return Err(ConfigError::DatabaseMissing(self.database.path.clone()));
        }
        if self.images.directories.len() == 0 {
            return Err(ConfigError::NoImageDirectories);
        }
        let mut i: usize = 0;
        while i < root_states.len()
            invariant
                database_exists,
                self.images.directories@.len() > 0,
                root_states@.len() == self.images.directories@.len(),
                i <= root_states@.len(),
                forall|j: int| 0 <= j < i ==> root_states@[j] == PathState::Directory,
            decreases root_states@.len() - i,
        {
            match root_states[i] {
                PathState::Missing => {
                    assert(first_bad_root(root_states@, i as int));
                    assert forall|k: int| #[trigger] first_bad_root(root_states@, k) implies k == i by {
                        if k < i { } else if k > i { assert(root_states@[i as int] == PathState::Directory); }
                    }
                    return Err(ConfigError::ImageDirectoryMissing(self.images.directories[i].clone()));
                },
                PathState::File => {
                    assert(first_bad_root(root_states@, i as int));
                    assert forall|k: int| #[trigger] first_bad_root(root_states@, k) implies k == i by {
                        if k < i { } else if k > i { assert(root_states@[i as int] == PathState::Directory); }
                    }
                    return Err(ConfigError::NotADirectory(self.images.directories[i].clone()));
                },
                PathState::Directory => {},
            }
            i = i + 1;
        }
        let port = self.get_port();
        if port < 1024 {
            return Err(ConfigError::PortTooLow(port));
        }
        let file_ttl = ttl_parts_of(&self.cache.file_ttl);
        let dir_ttl = ttl_parts_of(&self.cache.directory_ttl);
        if (file_ttl.0 == 0 && file_ttl.1 == 0) || (dir_ttl.0 == 0 && dir_ttl.1 == 0) {
            return Err(ConfigError::ZeroTtl);
        }
        if let Some(t) = &self.cache.file_ttl {
            if read_duration_text(t.as_str()).is_none() {
                return Err(ConfigError::InvalidFileTtl(t.clone()));
            }
        }
        if let Some(t) = &self.cache.directory_ttl {
            if read_duration_text(t.as_str()).is_none() {
                return Err(ConfigError::InvalidDirectoryTtl(t.clone()));
            }
        }
        Ok(())
    }
}

} // verus!
