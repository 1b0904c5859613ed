//! Server configuration: how the configured socket path is read as an
//! addressing mode, and where sockets are looked for by default.

use vstd::prelude::*;
use vstd::string::*;

verus! {

/// Why a configuration could not be made.
#[derive(Debug, Clone)]
pub enum ConfigError {
    /// A variable of the environment could not be read.
    Environment(String),
    /// The filesystem refused an operation.
    Filesystem(String),
    /// The path names something that is neither a file nor a directory.
    InvalidPath(String),
}

impl ConfigError {
    /// The text shown to a user for this error.
    pub open spec fn message_spec(self) -> Seq<char> {
        match self {
            ConfigError::Environment(detail) => "Environment variable error: "@ + detail@,
            ConfigError::Filesystem(detail) => "Filesystem error: "@ + detail@,
            ConfigError::InvalidPath(detail) => "Invalid path: "@ + detail@,
        }
    }

    /// The text shown to a user for this error.
    pub fn message(&self) -> (text: String)
        ensures
            text@ == self.message_spec(),
    {
        match self {
            ConfigError::Environment(detail) => String::from_str("Environment variable error: ").concat(
                detail.as_str(),
            ),
            ConfigError::Filesystem(detail) => String::from_str("Filesystem error: ").concat(
                detail.as_str(),
            ),
            ConfigError::InvalidPath(detail) => String::from_str("Invalid path: ").concat(
                detail.as_str(),
            ),
        }
    }
}

/// How the configured socket path addresses editor instances.
#[derive(Debug, Clone, Copy, PartialEq, Eq, Structural)]
pub enum SocketGlobMode {
    /// The path is an existing directory, searched for `nvim-mcp.*.sock`.
    Directory,
    /// The path is an existing file: one editor instance, connected at start.
    SingleFile,
    /// The path does not exist and is itself a glob pattern.
    GlobPattern,
}

/// What the filesystem holds at a path.
#[derive(Debug, Clone, Copy, PartialEq, Eq, Structural)]
pub enum PathKind {
    /// Nothing is there.
    Missing,
    /// A directory.
    Directory,
    /// A regular file.
    File,
    /// Something else, such as a device.
    Other,
}

/// The operating system family, as far as default locations depend on it.
#[derive(Debug, Clone, Copy, PartialEq, Eq, Structural)]
pub enum Platform {
    /// Windows: sockets live in the directory that `TEMP` names.
    Windows,
    /// Everything else: sockets live under the home directory.
    Unix,
}

/// `std::path::Path::exists`: whether the path points at something on disk
/// right now. Nothing is claimed of the answer.
#[verifier::external_body]
pub(crate) fn path_exists(path: &str) -> (exists: bool) {
    std::path::Path::new(path).exists()
}

/// `std::path::Path::is_dir`: whether the path is a directory on disk right
/// now. Nothing is claimed of the answer.
#[verifier::external_body]
fn path_is_dir(path: &str) -> (is_dir: bool) {
    std::path::Path::new(path).is_dir()
}

/// `std::path::Path::is_file`: whether the path is a regular file on disk
/// right now. Nothing is claimed of the answer.
#[verifier::external_body]
fn path_is_file(path: &str) -> (is_file: bool) {
    std::path::Path::new(path).is_file()
}

/// What is at a path, from what the filesystem answered to the three
/// questions about it: nothing where the path does not exist; otherwise a
/// directory where it is one, else a regular file where it is one, else
/// something other.
pub open spec fn kind_from_probes_spec(exists: bool, is_dir: bool, is_file: bool) -> PathKind {
    if !exists {
        PathKind::Missing
    } else if is_dir {
        PathKind::Directory
    } else if is_file {
        PathKind::File
    } else {
        PathKind::Other
    }
}

/// Says what is at a path, from what the filesystem answered to the three
/// questions about it.
pub fn kind_from_probes(exists: bool, is_dir: bool, is_file: bool) -> (kind: PathKind)
    ensures
        kind == kind_from_probes_spec(exists, is_dir, is_file),
{
    if !exists {
        PathKind::Missing
    } else if is_dir {
        PathKind::Directory
    } else if is_file {
        PathKind::File
    } else {
        PathKind::Other
    }
}

/// Looks at the filesystem and says what is at `path` at this moment: the
/// kind that `kind_from_probes` gives for the filesystem's answers. A path
/// that does not exist is not asked about further, and a directory is not
/// asked whether it is a file.
pub fn probe_path(path: &str) -> (kind: PathKind) {
    let exists = path_exists(path);
    let is_dir = exists && path_is_dir(path);
    let is_file = exists && !is_dir && path_is_file(path);
    kind_from_probes(exists, is_dir, is_file)
}

/// The addressing mode for a path at which the filesystem holds `kind`, if
/// there is one.
pub open spec fn mode_of(kind: PathKind) -> Option<SocketGlobMode> {
    match kind {
        PathKind::Missing => Some(SocketGlobMode::GlobPattern),
        PathKind::Directory => Some(SocketGlobMode::Directory),
        PathKind::File => Some(SocketGlobMode::SingleFile),
        PathKind::Other => None,
    }
}

/// The error for a path that exists as neither file nor directory.
pub open spec fn invalid_path_error(path: Seq<char>, e: ConfigError) -> bool {
    e matches ConfigError::InvalidPath(detail) && detail@
        == "Path exists but is neither file nor directory: "@ + path
}

/// Classifies a configured path by what the filesystem holds there: a
/// directory is searched, a file is the one locked target, a missing path is
/// a glob pattern. The path itself is handed back unchanged.
pub fn classify_socket_path(path: String, kind: PathKind) -> (resolved: Result<
    (String, SocketGlobMode),
    ConfigError,
>)
    ensures
        match mode_of(kind) {
            Some(mode) => resolved matches Ok(pair) && pair.0@ == path@ && pair.1 == mode,
            None => resolved matches Err(e) && invalid_path_error(path@, e),
        },
{
    match kind {
        PathKind::Missing => Ok((path, SocketGlobMode::GlobPattern)),
        PathKind::Directory => Ok((path, SocketGlobMode::Directory)),
        PathKind::File => Ok((path, SocketGlobMode::SingleFile)),
        PathKind::Other => Err(
            ConfigError::InvalidPath(
                String::from_str("Path exists but is neither file nor directory: ").concat(
                    path.as_str(),
                ),
            ),
        ),
    }
}

/// A path with one more relative component: the separator is put between
/// the two unless the path is empty or already ends in one.
pub open spec fn join_relative_spec(base: Seq<char>, name: Seq<char>) -> Seq<char> {
    if base.len() > 0 && base.last() != '/' {
        base.push('/') + name
    } else {
        base + name
    }
}

/// Appends the relative component `name` to the path `base`.
pub fn join_relative(base: &str, name: &str) -> (joined: String)
    ensures
        joined@ == join_relative_spec(base@, name@),
{
    let n = base.unicode_len();
    let mut joined = String::from_str(base);
    if n > 0 && base.get_char(n - 1) != '/' {
        joined.push('/');
    }
    joined.append(name);
    joined
}

/// A base path joined with another path: an absolute path stands for
/// itself, a relative one is appended to the base.
pub open spec fn join_path_spec(base: Seq<char>, path: Seq<char>) -> Seq<char> {
    if path.len() > 0 && path.first() == '/' {
        path
    } else {
        join_relative_spec(base, path)
    }
}

/// Joins `path` to the base path `base`.
pub fn join_path(base: &str, path: &str) -> (joined: String)
    ensures
        joined@ == join_path_spec(base@, path@),
{
    if path.unicode_len() > 0 && path.get_char(0) == '/' {
        String::from_str(path)
    } else {
        join_relative(base, path)
    }
}

/// The default socket directory below a home directory:
/// `.cache/nvim/rpc` under it.
pub open spec fn home_socket_dir(home: Seq<char>) -> Seq<char> {
    join_relative_spec(join_relative_spec(join_relative_spec(home, ".cache"@), "nvim"@), "rpc"@)
}

/// What `default_socket_dir` returns for the value, or the failure, of the
/// platform's variable: `TEMP` itself on Windows, the socket directory below
/// `HOME` elsewhere, and an environment error where the variable could not
/// be read.
pub open spec fn default_socket_dir_spec(
    platform: Platform,
    variable: Result<String, String>,
    dir: Result<String, ConfigError>,
) -> bool {
    match (platform, variable) {
        (Platform::Windows, Ok(temp)) => dir matches Ok(d) && d@ == temp@,
        (Platform::Windows, Err(why)) => dir matches Err(ConfigError::Environment(detail))
            && detail@ == "TEMP variable not set: "@ + why@,
        (Platform::Unix, Ok(home)) => dir matches Ok(d) && d@ == home_socket_dir(home@),
        (Platform::Unix, Err(why)) => dir matches Err(ConfigError::Environment(detail))
            && detail@ == "HOME variable not set: "@ + why@,
    }
}

/// Names the platform's default socket directory. `variable` is what
/// reading `TEMP` (Windows) or `HOME` (elsewhere) gave: its value, or the
/// reason why it could not be read.
pub fn default_socket_dir(platform: Platform, variable: Result<String, String>) -> (dir: Result<
    String,
    ConfigError,
>)
    ensures
        default_socket_dir_spec(platform, variable, dir),
{
    match platform {
        Platform::Windows => match variable {
            Ok(temp) => Ok(temp),
            Err(why) => Err(
                ConfigError::Environment(
                    String::from_str("TEMP variable not set: ").concat(why.as_str()),
                ),
            ),
        },
        Platform::Unix => match variable {
            Ok(home) => {
                let cache = join_relative(home.as_str(), ".cache");
                let nvim = join_relative(cache.as_str(), "nvim");
                Ok(join_relative(nvim.as_str(), "rpc"))
            },
            Err(why) => Err(
                ConfigError::Environment(
                    String::from_str("HOME variable not set: ").concat(why.as_str()),
                ),
            ),
        },
    }
}

/// The outcome of making sure that the socket directory exists: the
/// directory where it does, a filesystem error that names it where creating
/// it failed with the reason `why`.
pub fn socket_dir_created(dir: String, created: Result<(), String>) -> (ready: Result<
    String,
    ConfigError,
>)
    ensures
        match created {
            Ok(_) => ready matches Ok(d) && d@ == dir@,
            Err(why) => ready matches Err(ConfigError::Filesystem(detail)) && detail@
                == "Cannot create socket directory "@ + dir@ + ": "@ + why@,
        },
{
    match created {
        Ok(_) => Ok(dir),
        Err(why) => {
            let mut detail = String::from_str("Cannot create socket directory ");
            detail.append(dir.as_str());
            detail.append(": ");
            detail.append(why.as_str());
            Err(ConfigError::Filesystem(detail))
        },
    }
}

/// Configuration of the server.
#[derive(Debug, Clone)]
pub struct ServerConfig {
    /// The resolved socket path: a directory, a file or a glob pattern.
    pub socket_path: String,
    /// How `socket_path` is to be read.
    pub socket_mode: SocketGlobMode,
    /// Where the log is written, if not to the standard error stream.
    pub log_file: Option<String>,
    /// The log level's name.
    pub log_level: String,
}

impl ServerConfig {
    /// Makes a configuration, resolving the socket path as
    /// `resolve_socket_path_and_mode` does. The other settings are kept as
    /// given.
    pub fn new(
        socket_path: Option<String>,
        log_file: Option<String>,
        log_level: String,
        default_dir: Result<String, ConfigError>,
    ) -> (config: Result<Self, ConfigError>)
        ensures
            match socket_path {
                Some(path) => match config {
                    Ok(c) => c.socket_path@ == path@ && c.log_file == log_file && c.log_level
                        == log_level,
                    Err(e) => invalid_path_error(path@, e),
                },
                None => match default_dir {
                    Ok(dir) => config matches Ok(c) && c.socket_path@ == dir@ && c.socket_mode
                        == SocketGlobMode::Directory && c.log_file == log_file && c.log_level
                        == log_level,
                    Err(why) => config == Err::<Self, ConfigError>(why),
                },
            },
    {
        match Self::resolve_socket_path_and_mode(socket_path, default_dir) {
            Ok((socket_path, socket_mode)) => Ok(
                ServerConfig { socket_path, socket_mode, log_file, log_level },
            ),
            Err(e) => Err(e),
        }
    }

    /// Resolves the configured socket path and its addressing mode.
    ///
    /// A given path is looked up on the filesystem and classified as
    /// `classify_socket_path` says; it comes back unchanged, or the call
    /// fails because the path is neither file nor directory. Without a
    /// path, the default directory is used in `Directory` mode;
    /// `default_dir` is the outcome of preparing it, and its failure is
    /// passed on.
    pub fn resolve_socket_path_and_mode(
        provided: Option<String>,
        default_dir: Result<String, ConfigError>,
    ) -> (resolved: Result<(String, SocketGlobMode), ConfigError>)
        ensures
            match provided {
                Some(path) => match resolved {
                    Ok(pair) => pair.0@ == path@,
                    Err(e) => invalid_path_error(path@, e),
                },
                None => match default_dir {
                    Ok(dir) => resolved matches Ok(pair) && pair.0@ == dir@ && pair.1
                        == SocketGlobMode::Directory,
                    Err(why) => resolved == Err::<(String, SocketGlobMode), ConfigError>(why),
                },
            },
    {
        match provided {
            Some(path) => {
                let kind = probe_path(path.as_str());
                classify_socket_path(path, kind)
            },
            None => match default_dir {
                Ok(dir) => Ok((dir, SocketGlobMode::Directory)),
                Err(why) => Err(why),
            },
        }
    }

    /// Resolves the configured socket path alone: the path of
    /// `resolve_socket_path_and_mode`, without the mode.
    pub fn resolve_socket_path(
        provided: Option<String>,
        default_dir: Result<String, ConfigError>,
    ) -> (resolved: Result<String, ConfigError>)
        ensures
            match provided {
                Some(path) => match resolved {
                    Ok(p) => p@ == path@,
                    Err(e) => invalid_path_error(path@, e),
                },
                None => match default_dir {
                    Ok(dir) => resolved matches Ok(p) && p@ == dir@,
                    Err(why) => resolved == Err::<String, ConfigError>(why),
                },
            },
    {
        match Self::resolve_socket_path_and_mode(provided, default_dir) {
            Ok((path, _mode)) => Ok(path),
            Err(e) => Err(e),
        }
    }
}

} // verus!
