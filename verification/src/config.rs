//! Runtime configuration, resolved in layers: built-in defaults, the global
//! file, the local file, environment variables and the command line, each one
//! overriding only the settings it names.

use vstd::prelude::*;
use vstd::string::*;
use crate::cli;
use crate::text;
use crate::json::{Json, JsonView, members_view, lemma_object_view};
use crate::text::{concat, owned, parse_u16, push_decimal, str_eq, to_ascii_lowercase, trim_str};

verus! {

/// Where the data lives.
#[derive(Clone, Copy, Debug, PartialEq, Eq, Structural)]
pub enum StorageBackend {
    Local,
    Cloud,
}

/// Settings of the embedded store.
#[derive(Debug, Clone)]
pub struct LocalConfig {
    pub path: String,
}

/// Settings of a remote store.
#[derive(Debug, Clone)]
pub struct CloudConfig {
    pub url: String,
    pub namespace: String,
    pub database: String,
    pub username: String,
    pub password: String,
    pub auth_type: String,
}

/// The resolved configuration.
#[derive(Debug, Clone)]
pub struct Config {
    pub backend: StorageBackend,
    pub local: LocalConfig,
    pub cloud: CloudConfig,
    pub qdrant_url: String,
}

/// The remote settings as character sequences.
pub struct CloudView {
    pub url: Seq<char>,
    pub namespace: Seq<char>,
    pub database: Seq<char>,
    pub username: Seq<char>,
    pub password: Seq<char>,
    pub auth_type: Seq<char>,
}

/// A configuration as character sequences.
pub struct ConfigView {
    pub backend: StorageBackend,
    pub local_path: Seq<char>,
    pub cloud: CloudView,
    pub qdrant_url: Seq<char>,
}

impl View for CloudConfig {
    type V = CloudView;

    open spec fn view(&self) -> CloudView {
        CloudView {
            url: self.url@,
            namespace: self.namespace@,
            database: self.database@,
            username: self.username@,
            password: self.password@,
            auth_type: self.auth_type@,
        }
    }
}

impl View for Config {
    type V = ConfigView;

    open spec fn view(&self) -> ConfigView {
        ConfigView {
            backend: self.backend,
            local_path: self.local.path@,
            cloud: self.cloud@,
            qdrant_url: self.qdrant_url@,
        }
    }
}

/// The default remote settings: no address, and `root` credentials.
pub open spec fn default_cloud() -> CloudView {
    CloudView {
        url: Seq::empty(),
        namespace: Seq::empty(),
        database: Seq::empty(),
        username: "root"@,
        password: "root"@,
        auth_type: "root"@,
    }
}

/// The built-in configuration.
pub open spec fn default_view() -> ConfigView {
    ConfigView {
        backend: StorageBackend::Local,
        local_path: "~/.local/share/dunno/data.db"@,
        cloud: default_cloud(),
        qdrant_url: "mem://"@,
    }
}

impl Default for LocalConfig {
    fn default() -> (r: Self)
        ensures
            r.path@ == "~/.local/share/dunno/data.db"@,
    {
        LocalConfig { path: owned("~/.local/share/dunno/data.db") }
    }
}

impl Default for CloudConfig {
    fn default() -> (r: Self)
        ensures
            r@ == default_cloud(),
    {
        CloudConfig {
            url: String::new(),
            namespace: String::new(),
            database: String::new(),
            username: owned("root"),
            password: owned("root"),
            auth_type: owned("root"),
        }
    }
}

impl Default for Config {
    fn default() -> (r: Self)
        ensures
            r@ == default_view(),
    {
        Config {
            backend: StorageBackend::Local,
            local: LocalConfig::default(),
            cloud: CloudConfig::default(),
            qdrant_url: owned("mem://"),
        }
    }
}

// ---------------------------------------------------------------------------
// Partial settings, as a file or the environment gives them
// ---------------------------------------------------------------------------

/// The `[local]` table of a configuration file.
#[derive(Debug, Clone)]
pub struct PartialLocalConfig {
    pub path: Option<String>,
}

/// The `[cloud]` table of a configuration file.
#[derive(Debug, Clone)]
pub struct PartialCloudConfig {
    pub url: Option<String>,
    pub namespace: Option<String>,
    pub database: Option<String>,
    pub username: Option<String>,
    pub password: Option<String>,
    pub auth_type: Option<String>,
}

/// A configuration file: every setting optional.
#[derive(Debug, Clone)]
pub struct PartialConfig {
    pub backend: Option<String>,
    pub local: Option<PartialLocalConfig>,
    pub cloud: Option<PartialCloudConfig>,
    pub qdrant_url: Option<String>,
}

/// The remote settings that a layer names.
pub struct PartialCloudView {
    pub url: Option<Seq<char>>,
    pub namespace: Option<Seq<char>>,
    pub database: Option<Seq<char>>,
    pub username: Option<Seq<char>>,
    pub password: Option<Seq<char>>,
    pub auth_type: Option<Seq<char>>,
}

/// The settings that a layer names.
pub struct PartialView {
    pub backend: Option<Seq<char>>,
    pub local_path: Option<Seq<char>>,
    pub cloud: PartialCloudView,
    pub qdrant_url: Option<Seq<char>>,
}

/// No remote setting named.
pub open spec fn no_cloud() -> PartialCloudView {
    PartialCloudView {
        url: None,
        namespace: None,
        database: None,
        username: None,
        password: None,
        auth_type: None,
    }
}

impl View for PartialCloudConfig {
    type V = PartialCloudView;

    open spec fn view(&self) -> PartialCloudView {
        PartialCloudView {
            url: cli::opt_string_view(self.url),
            namespace: cli::opt_string_view(self.namespace),
            database: cli::opt_string_view(self.database),
            username: cli::opt_string_view(self.username),
            password: cli::opt_string_view(self.password),
            auth_type: cli::opt_string_view(self.auth_type),
        }
    }
}

impl View for PartialConfig {
    type V = PartialView;

    open spec fn view(&self) -> PartialView {
        PartialView {
            backend: cli::opt_string_view(self.backend),
            local_path: match self.local {
                Some(l) => cli::opt_string_view(l.path),
                None => None,
            },
            cloud: match self.cloud {
                Some(c) => c@,
                None => no_cloud(),
            },
            qdrant_url: cli::opt_string_view(self.qdrant_url),
        }
    }
}

// ---------------------------------------------------------------------------
// Errors
// ---------------------------------------------------------------------------

/// Why a configuration could not be resolved.
#[derive(Debug)]
pub enum ConfigError {
    /// A backend name that is none of `local`, `embedded`, `cloud` (trimmed, in lower case).
    InvalidBackend { value: String },
    /// The configuration file at `path` exists but could not be read.
    ReadFailed { path: String },
    /// The configuration file at `path` is not valid TOML for the settings.
    ParseFailed { path: String },
}

/// A configuration error as character sequences.
pub enum ConfigErrorView {
    InvalidBackend(Seq<char>),
    ReadFailed(Seq<char>),
    ParseFailed(Seq<char>),
}

impl View for ConfigError {
    type V = ConfigErrorView;

    open spec fn view(&self) -> ConfigErrorView {
        match self {
            ConfigError::InvalidBackend { value } => ConfigErrorView::InvalidBackend(value@),
            ConfigError::ReadFailed { path } => ConfigErrorView::ReadFailed(path@),
            ConfigError::ParseFailed { path } => ConfigErrorView::ParseFailed(path@),
        }
    }
}

/// The text that a configuration error reads as.
pub open spec fn error_message(e: ConfigErrorView) -> Seq<char> {
    match e {
        ConfigErrorView::InvalidBackend(v) => "Invalid backend '"@ + v
            + "'. Expected one of: local, cloud"@,
        ConfigErrorView::ReadFailed(p) => "Failed to read config file at "@ + p,
        ConfigErrorView::ParseFailed(p) => "Failed to parse TOML at "@ + p,
    }
}

impl ConfigError {
    /// The text of the error.
    pub fn message(&self) -> (r: String)
        ensures
            r@ == error_message(self@),
    {
        match self {
            ConfigError::InvalidBackend { value } => {
                let mut s = concat("Invalid backend '", value.as_str());
                s.append("'. Expected one of: local, cloud");
                s
            },
            ConfigError::ReadFailed { path } => concat("Failed to read config file at ", path.as_str()),
            ConfigError::ParseFailed { path } => concat("Failed to parse TOML at ", path.as_str()),
        }
    }
}

// ---------------------------------------------------------------------------
// Backend names
// ---------------------------------------------------------------------------

/// A backend name with surrounding whitespace removed and ASCII letters in lower case.
pub open spec fn normalize(v: Seq<char>) -> Seq<char> {
    text::ascii_lowercase(text::trim(v))
}

/// The backend that a name denotes, if any: `local`, or `embedded` for the
/// same store in a local file, and `cloud`.
pub open spec fn backend_of(v: Seq<char>) -> Option<StorageBackend> {
    let n = normalize(v);
    if n == "local"@ || n == "embedded"@ {
        Some(StorageBackend::Local)
    } else if n == "cloud"@ {
        Some(StorageBackend::Cloud)
    } else {
        None
    }
}

impl StorageBackend {
    /// Reads a backend name, ignoring surrounding whitespace and ASCII case.
    pub fn parse(value: &str) -> (r: Result<StorageBackend, ConfigError>)
        ensures
            match backend_of(value@) {
                Some(b) => r matches Ok(x) && x == b,
                None => r matches Err(e) && e@ == ConfigErrorView::InvalidBackend(normalize(value@)),
            },
    {
        let n = to_ascii_lowercase(trim_str(value));
        if str_eq(n.as_str(), "local") || str_eq(n.as_str(), "embedded") {
            Ok(StorageBackend::Local)
        } else if str_eq(n.as_str(), "cloud") {
            Ok(StorageBackend::Cloud)
        } else {
            Err(ConfigError::InvalidBackend { value: n })
        }
    }
}

// ---------------------------------------------------------------------------
// Layering
// ---------------------------------------------------------------------------

/// A setting that a layer names, or the one beneath it.
pub open spec fn pick(o: Option<Seq<char>>, d: Seq<char>) -> Seq<char> {
    match o {
        Some(v) => v,
        None => d,
    }
}

/// Lays the settings that `p` names over `c`. A backend name that is not
/// valid fails the whole layer.
pub open spec fn merge_spec(c: ConfigView, p: PartialView) -> Result<ConfigView, ConfigErrorView> {
    let b = match p.backend {
        None => Some(c.backend),
        Some(v) => backend_of(v),
    };
    match b {
        None => Err(ConfigErrorView::InvalidBackend(normalize(p.backend->0))),
        Some(b) => Ok(
            ConfigView {
                backend: b,
                local_path: pick(p.local_path, c.local_path),
                cloud: CloudView {
                    url: pick(p.cloud.url, c.cloud.url),
                    namespace: pick(p.cloud.namespace, c.cloud.namespace),
                    database: pick(p.cloud.database, c.cloud.database),
                    username: pick(p.cloud.username, c.cloud.username),
                    password: pick(p.cloud.password, c.cloud.password),
                    auth_type: pick(p.cloud.auth_type, c.cloud.auth_type),
                },
                qdrant_url: pick(p.qdrant_url, c.qdrant_url),
            },
        ),
    }
}

/// The next step after `r`: the layer `p` laid over it, unless it failed already.
pub open spec fn then_merge(
    r: Result<ConfigView, ConfigErrorView>,
    p: PartialView,
) -> Result<ConfigView, ConfigErrorView> {
    match r {
        Ok(c) => merge_spec(c, p),
        Err(e) => Err(e),
    }
}

/// What a call that changes a configuration in place did: on success the new
/// value is the one the specification gives, on failure nothing changed.
pub open spec fn applied(
    r: Result<(), ConfigError>,
    before: ConfigView,
    after: ConfigView,
    expected: Result<ConfigView, ConfigErrorView>,
) -> bool {
    match expected {
        Ok(v) => r is Ok && after == v,
        Err(e) => r matches Err(x) && x@ == e && after == before,
    }
}

/// Environment variables as pairs of a name and a value, if set.
pub open spec fn env_view(pairs: Seq<(&str, Option<String>)>) -> Seq<(Seq<char>, Option<Seq<char>>)> {
    pairs.map_values(|e: (&str, Option<String>)| (e.0@, cli::opt_string_view(e.1)))
}

/// The value of `key` among `pairs`: the last one set.
pub open spec fn env_value(pairs: Seq<(Seq<char>, Option<Seq<char>>)>, key: Seq<char>) -> Option<Seq<char>>
    decreases pairs.len(),
{
    if pairs.len() == 0 {
        None
    } else if pairs.last().0 == key && pairs.last().1 is Some {
        pairs.last().1
    } else {
        env_value(pairs.drop_last(), key)
    }
}

/// The settings that the environment names.
pub open spec fn env_partial(pairs: Seq<(Seq<char>, Option<Seq<char>>)>) -> PartialView {
    PartialView {
        backend: env_value(pairs, "DUNNO_BACKEND"@),
        local_path: env_value(pairs, "DUNNO_LOCAL_PATH"@),
        cloud: PartialCloudView {
            url: env_value(pairs, "DUNNO_CLOUD_URL"@),
            namespace: env_value(pairs, "DUNNO_CLOUD_NS"@),
            database: env_value(pairs, "DUNNO_CLOUD_DB"@),
            username: env_value(pairs, "DUNNO_CLOUD_USER"@),
            password: env_value(pairs, "DUNNO_CLOUD_PASS"@),
            auth_type: env_value(pairs, "DUNNO_CLOUD_AUTH_TYPE"@),
        },
        qdrant_url: None,
    }
}

/// The settings that the command line names: the backend at most.
pub open spec fn cli_partial(backend: Option<Seq<char>>) -> PartialView {
    PartialView { backend, local_path: None, cloud: no_cloud(), qdrant_url: None }
}

/// What reading one configuration file gave.
#[derive(Debug)]
pub enum ConfigFile {
    /// There is no file at the path.
    Missing,
    /// The file at `path` exists but could not be read.
    ReadFailed { path: String },
    /// The file at `path` is not valid TOML for the settings.
    ParseFailed { path: String },
    /// The file's settings.
    Parsed(PartialConfig),
}

/// A configuration file's outcome as character sequences.
pub enum ConfigFileView {
    Missing,
    ReadFailed(Seq<char>),
    ParseFailed(Seq<char>),
    Parsed(PartialView),
}

impl View for ConfigFile {
    type V = ConfigFileView;

    open spec fn view(&self) -> ConfigFileView {
        match self {
            ConfigFile::Missing => ConfigFileView::Missing,
            ConfigFile::ReadFailed { path } => ConfigFileView::ReadFailed(path@),
            ConfigFile::ParseFailed { path } => ConfigFileView::ParseFailed(path@),
            ConfigFile::Parsed(p) => ConfigFileView::Parsed(p@),
        }
    }
}

/// Lays a configuration file over `c`.
pub open spec fn file_spec(c: ConfigView, f: ConfigFileView) -> Result<ConfigView, ConfigErrorView> {
    match f {
        ConfigFileView::Missing => Ok(c),
        ConfigFileView::ReadFailed(p) => Err(ConfigErrorView::ReadFailed(p)),
        ConfigFileView::ParseFailed(p) => Err(ConfigErrorView::ParseFailed(p)),
        ConfigFileView::Parsed(p) => merge_spec(c, p),
    }
}

/// The next step after `r`: the file `f` laid over it, unless it failed already.
pub open spec fn then_file(
    r: Result<ConfigView, ConfigErrorView>,
    f: ConfigFileView,
) -> Result<ConfigView, ConfigErrorView> {
    match r {
        Ok(c) => file_spec(c, f),
        Err(e) => Err(e),
    }
}

/// The address of a store that the desktop interface manages, from the
/// content of its marker file: the port, with surrounding whitespace allowed.
pub open spec fn marker_url(content: Option<Seq<char>>) -> Option<Seq<char>> {
    match content {
        None => None,
        Some(c) => match text::u16_of(text::trim(c)) {
            None => None,
            Some(p) => Some("ws://127.0.0.1:"@ + text::decimal(p as nat) + "/rpc"@),
        },
    }
}

/// On the local backend, with a managed store running, switch to that store.
pub open spec fn autodetect(c: ConfigView, url: Option<Seq<char>>) -> ConfigView {
    if c.backend == StorageBackend::Local && url is Some {
        ConfigView {
            backend: StorageBackend::Cloud,
            local_path: c.local_path,
            cloud: CloudView {
                url: url->0,
                namespace: "dunno"@,
                database: "dunno"@,
                username: "root"@,
                password: "root"@,
                auth_type: "root"@,
            },
            qdrant_url: c.qdrant_url,
        }
    } else {
        c
    }
}

/// The configuration that the layers give, lowest first: defaults, the
/// global file, the local file, the environment, the command line; then the
/// switch to a managed store.
pub open spec fn load_spec(
    cli_backend: Option<Seq<char>>,
    global: ConfigFileView,
    local: ConfigFileView,
    env: Seq<(Seq<char>, Option<Seq<char>>)>,
    marker: Option<Seq<char>>,
) -> Result<ConfigView, ConfigErrorView> {
    let r = then_file(Ok(default_view()), global);
    let r = then_file(r, local);
    let r = then_merge(r, env_partial(env));
    let r = then_merge(r, cli_partial(cli_backend));
    match r {
        Ok(c) => Ok(autodetect(c, marker_url(marker))),
        Err(e) => Err(e),
    }
}

/// The layering used by the tests of the configuration: defaults, the
/// environment unless skipped, the global file, the local file, the command line.
pub open spec fn load_optional_spec(
    cli_backend: Option<Seq<char>>,
    global: Option<ConfigFileView>,
    local: Option<ConfigFileView>,
    skip_env: bool,
    env: Seq<(Seq<char>, Option<Seq<char>>)>,
) -> Result<ConfigView, ConfigErrorView> {
    let r: Result<ConfigView, ConfigErrorView> = Ok(default_view());
    let r = if skip_env { r } else { then_merge(r, env_partial(env)) };
    let r = match global { Some(f) => then_file(r, f), None => r };
    let r = match local { Some(f) => then_file(r, f), None => r };
    then_merge(r, cli_partial(cli_backend))
}

/// The optional string view of an optional string slice.
pub open spec fn opt_str_view(o: Option<&str>) -> Option<Seq<char>> {
    match o {
        Some(s) => Some(s@),
        None => None,
    }
}

fn take_value(o: &Option<String>) -> (r: Option<String>)
    ensures
        cli::opt_string_view(r) == cli::opt_string_view(*o),
{
    match o {
        Some(s) => Some(s.clone()),
        None => None,
    }
}

/// The value of `key` among `pairs`: the last one set.
fn env_lookup(pairs: &[(&str, Option<String>)], key: &str) -> (r: Option<String>)
    ensures
        cli::opt_string_view(r) == env_value(env_view(pairs@), key@),
{
    let ghost all = env_view(pairs@);
    let mut i: usize = pairs.len();
    assert(all.take(i as int) =~= all);
    while i > 0
        invariant
            i <= pairs@.len(),
            all == env_view(pairs@),
            env_value(all, key@) == env_value(all.take(i as int), key@),
        decreases i,
    {
        let e = &pairs[i - 1];
        proof {
            let t = all.take(i as int);
            assert(t.drop_last() =~= all.take(i - 1));
            assert(t.last() == all[i - 1]);
        }
        if str_eq(e.0, key) && e.1.is_some() {
            return take_value(&e.1);
        }
        i = i - 1;
    }
    assert(all.take(0) =~= Seq::<(Seq<char>, Option<Seq<char>>)>::empty());
    None
}

/// The URL of a store that the desktop interface manages, from the content
/// of its marker file.
pub fn server_url_from_marker(content: &str) -> (r: Option<String>)
    ensures
        cli::opt_string_view(r) == marker_url(Some(content@)),
{
    match parse_u16(trim_str(content)) {
        None => None,
        Some(port) => {
            let mut s = owned("ws://127.0.0.1:");
            push_decimal(&mut s, port as usize);
            s.append("/rpc");
            Some(s)
        },
    }
}

impl Config {
    /// Lays the settings that `partial` names over this configuration.
    pub fn merge_partial(&mut self, partial: PartialConfig) -> (r: Result<(), ConfigError>)
        ensures
            applied(r, old(self)@, final(self)@, merge_spec(old(self)@, partial@)),
    {
        let backend = match &partial.backend {
            Some(v) => match StorageBackend::parse(v.as_str()) {
                Ok(b) => b,
                Err(e) => {
                    return Err(e);
                },
            },
            None => self.backend,
        };
        self.backend = backend;
        if let Some(local) = partial.local {
            if let Some(path) = local.path {
                self.local.path = path;
            }
        }
        if let Some(cloud) = partial.cloud {
            if let Some(url) = cloud.url {
                self.cloud.url = url;
            }
            if let Some(namespace) = cloud.namespace {
                self.cloud.namespace = namespace;
            }
            if let Some(database) = cloud.database {
                self.cloud.database = database;
            }
            if let Some(username) = cloud.username {
                self.cloud.username = username;
            }
            if let Some(password) = cloud.password {
                self.cloud.password = password;
            }
            if let Some(auth_type) = cloud.auth_type {
                self.cloud.auth_type = auth_type;
            }
        }
        if let Some(qdrant_url) = partial.qdrant_url {
            self.qdrant_url = qdrant_url;
        }
        Ok(())
    }

    /// Lays the settings that the environment variables `pairs` name over this
    /// configuration; where a name occurs more than once, the last value set wins.
    pub fn apply_env_override_pairs(&mut self, pairs: &[(&str, Option<String>)]) -> (r: Result<(), ConfigError>)
        ensures
            applied(r, old(self)@, final(self)@, merge_spec(old(self)@, env_partial(env_view(pairs@)))),
    {
        let partial = PartialConfig {
            backend: env_lookup(pairs, "DUNNO_BACKEND"),
            local: Some(PartialLocalConfig { path: env_lookup(pairs, "DUNNO_LOCAL_PATH") }),
            cloud: Some(
                PartialCloudConfig {
                    url: env_lookup(pairs, "DUNNO_CLOUD_URL"),
                    namespace: env_lookup(pairs, "DUNNO_CLOUD_NS"),
                    database: env_lookup(pairs, "DUNNO_CLOUD_DB"),
                    username: env_lookup(pairs, "DUNNO_CLOUD_USER"),
                    password: env_lookup(pairs, "DUNNO_CLOUD_PASS"),
                    auth_type: env_lookup(pairs, "DUNNO_CLOUD_AUTH_TYPE"),
                },
            ),
            qdrant_url: None,
        };
        assert(partial@ == env_partial(env_view(pairs@)));
        self.merge_partial(partial)
    }

    /// Applies the backend given on the command line, if any.
    pub fn apply_cli_overrides(&mut self, cli_backend: Option<&str>) -> (r: Result<(), ConfigError>)
        ensures
            applied(r, old(self)@, final(self)@, merge_spec(old(self)@, cli_partial(opt_str_view(cli_backend)))),
    {
        match cli_backend {
            Some(v) => match StorageBackend::parse(v) {
                Ok(b) => {
                    self.backend = b;
                    Ok(())
                },
                Err(e) => Err(e),
            },
            None => Ok(()),
        }
    }

    /// Lays a configuration file over this configuration.
    pub fn apply_config_file(&mut self, file: ConfigFile) -> (r: Result<(), ConfigError>)
        ensures
            applied(r, old(self)@, final(self)@, file_spec(old(self)@, file@)),
    {
        match file {
            ConfigFile::Missing => Ok(()),
            ConfigFile::ReadFailed { path } => Err(ConfigError::ReadFailed { path }),
            ConfigFile::ParseFailed { path } => Err(ConfigError::ParseFailed { path }),
            ConfigFile::Parsed(p) => self.merge_partial(p),
        }
    }

    /// Resolves the configuration from its layers, lowest first: the
    /// defaults, the global file, the local file, the environment variables
    /// `env`, and the backend named on the command line. If the result is on
    /// the local backend and `server_marker` (the content of the marker file
    /// of the desktop interface) names a port, the store it manages is used.
    pub fn load(
        cli_backend: Option<&str>,
        global: ConfigFile,
        local: ConfigFile,
        env: &[(&str, Option<String>)],
        server_marker: Option<&str>,
    ) -> (r: Result<Config, ConfigError>)
        ensures
            match load_spec(opt_str_view(cli_backend), global@, local@, env_view(env@), opt_str_view(server_marker)) {
                Ok(c) => r matches Ok(x) && x@ == c,
                Err(e) => r matches Err(x) && x@ == e,
            },
    {
        let mut config = Config::default();
        match config.apply_config_file(global) {
            Ok(()) => {},
            Err(e) => {
                return Err(e);
            },
        }
        match config.apply_config_file(local) {
            Ok(()) => {},
            Err(e) => {
                return Err(e);
            },
        }
        match config.apply_env_override_pairs(env) {
            Ok(()) => {},
            Err(e) => {
                return Err(e);
            },
        }
        match config.apply_cli_overrides(cli_backend) {
            Ok(()) => {},
            Err(e) => {
                return Err(e);
            },
        }
        if config.backend == StorageBackend::Local {
            let url = match server_marker {
                Some(m) => server_url_from_marker(m),
                None => None,
            };
            if let Some(url) = url {
                config.backend = StorageBackend::Cloud;
                config.cloud.url = url;
                config.cloud.namespace = owned("dunno");
                config.cloud.database = owned("dunno");
                config.cloud.username = owned("root");
                config.cloud.password = owned("root");
                config.cloud.auth_type = owned("root");
            }
        }
        Ok(config)
    }

    /// Resolves the configuration as the tests of the layering do: the
    /// defaults, the environment variables `env` unless `skip_env`, the global
    /// file and the local file where given, and the command line.
    pub fn load_from_optional_paths(
        cli_backend: Option<&str>,
        global: Option<ConfigFile>,
        local: Option<ConfigFile>,
        skip_env: bool,
        env: &[(&str, Option<String>)],
    ) -> (r: Result<Config, ConfigError>)
        ensures
            match load_optional_spec(
                opt_str_view(cli_backend),
                match global { Some(f) => Some(f@), None => None },
                match local { Some(f) => Some(f@), None => None },
                skip_env,
                env_view(env@),
            ) {
                Ok(c) => r matches Ok(x) && x@ == c,
                Err(e) => r matches Err(x) && x@ == e,
            },
    {
        let mut config = Config::default();
        if !skip_env {
            match config.apply_env_override_pairs(env) {
                Ok(()) => {},
                Err(e) => {
                    return Err(e);
                },
            }
        }
        if let Some(f) = global {
            match config.apply_config_file(f) {
                Ok(()) => {},
                Err(e) => {
                    return Err(e);
                },
            }
        }
        if let Some(f) = local {
            match config.apply_config_file(f) {
                Ok(()) => {},
                Err(e) => {
                    return Err(e);
                },
            }
        }
        match config.apply_cli_overrides(cli_backend) {
            Ok(()) => {},
            Err(e) => {
                return Err(e);
            },
        }
        Ok(config)
    }
}

// ---------------------------------------------------------------------------
// Paths
// ---------------------------------------------------------------------------

/// `dirs::home_dir`: the current user's home directory, as text. Which
/// directory depends on the user and the environment, so that is not stated;
/// what is stated is that a home it gives is never empty (it gives none for
/// an empty `HOME` and an empty password entry, and a lossy conversion keeps
/// a non-empty path non-empty).
#[verifier::external_body]
fn home_dir() -> (r: Option<String>)
    ensures
        r matches Some(h) ==> h@.len() > 0,
{
    match dirs::home_dir() {
        Some(p) => Some(p.to_string_lossy().into_owned()),
        None => None,
    }
}

/// A home directory as the system can give one: none, or a non-empty path.
pub open spec fn known_home(home: Option<Seq<char>>) -> bool {
    home matches Some(h) ==> h.len() > 0
}

/// `base` joined with `seg` as `PathBuf::push` does on Unix: an absolute
/// segment replaces the base; otherwise a separator goes between them unless
/// the base is empty or already ends with one.
pub open spec fn path_join(base: Seq<char>, seg: Seq<char>) -> Seq<char> {
    if seg.len() > 0 && seg[0] == '/' {
        seg
    } else if base.len() == 0 || base.last() == '/' {
        base + seg
    } else {
        base + seq!['/'] + seg
    }
}

/// `base` joined with `seg`, as `PathBuf::push` does on Unix.
pub fn path_join_str(base: &str, seg: &str) -> (r: String)
    ensures
        r@ == path_join(base@, seg@),
{
    let n = base.unicode_len();
    let m = seg.unicode_len();
    if m > 0 && seg.get_char(0) == '/' {
        owned(seg)
    } else if n == 0 || base.get_char(n - 1) == '/' {
        concat(base, seg)
    } else {
        let mut r = owned(base);
        text::push_char(&mut r, '/');
        r.append(seg);
        r
    }
}

/// The home directory, or the working directory where there is none.
pub open spec fn home_or_dot(home: Option<Seq<char>>) -> Seq<char> {
    match home {
        Some(h) => h,
        None => seq!['.'],
    }
}

/// The global configuration file under a home directory.
pub open spec fn global_config_path_spec(home: Option<Seq<char>>) -> Seq<char> {
    path_join(path_join(path_join(home_or_dot(home), ".config"@), "dunno"@), "dunno.toml"@)
}

/// The marker file of the desktop interface under a home directory.
pub open spec fn ui_server_marker_path_spec(home: Option<Seq<char>>) -> Seq<char> {
    path_join(
        path_join(path_join(path_join(home_or_dot(home), ".local"@), "share"@), "dunno"@),
        "ui-server.port"@,
    )
}

/// A path with a leading `~` standing for the home directory expanded.
pub open spec fn expand_tilde_spec(raw: Seq<char>, home: Option<Seq<char>>) -> Seq<char> {
    if raw == seq!['~'] {
        match home {
            Some(h) => h,
            None => raw,
        }
    } else if raw.len() >= 2 && raw[0] == '~' && raw[1] == '/' && home is Some {
        path_join(home->0, raw.skip(2))
    } else {
        raw
    }
}

fn home_or_dot_str(home: Option<String>) -> (r: String)
    ensures
        r@ == home_or_dot(cli::opt_string_view(home)),
{
    match home {
        Some(h) => h,
        None => {
            proof {
                reveal_strlit(".");
            }
            owned(".")
        },
    }
}

/// The global configuration file under the home directory `home`.
pub fn global_config_path_in(home: Option<String>) -> (r: String)
    ensures
        r@ == global_config_path_spec(cli::opt_string_view(home)),
{
    let base = home_or_dot_str(home);
    let a = path_join_str(base.as_str(), ".config");
    let b = path_join_str(a.as_str(), "dunno");
    path_join_str(b.as_str(), "dunno.toml")
}

/// The marker file of the desktop interface under the home directory `home`.
pub fn ui_server_marker_path_in(home: Option<String>) -> (r: String)
    ensures
        r@ == ui_server_marker_path_spec(cli::opt_string_view(home)),
{
    let base = home_or_dot_str(home);
    let a = path_join_str(base.as_str(), ".local");
    let b = path_join_str(a.as_str(), "share");
    let c = path_join_str(b.as_str(), "dunno");
    path_join_str(c.as_str(), "ui-server.port")
}

/// `raw` with a leading `~` expanded to the home directory `home`.
pub fn expand_tilde_in(raw: &str, home: Option<String>) -> (r: String)
    ensures
        r@ == expand_tilde_spec(raw@, cli::opt_string_view(home)),
{
    let n = raw.unicode_len();
    if n == 1 && raw.get_char(0) == '~' {
        assert(raw@ =~= seq!['~']);
        return match home {
            Some(h) => h,
            None => owned(raw),
        };
    }
    if n >= 2 && raw.get_char(0) == '~' && raw.get_char(1) == '/' {
        if let Some(h) = home {
            let rest = raw.substring_char(2, n);
            assert(rest@ =~= raw@.skip(2));
            return path_join_str(h.as_str(), rest);
        }
    }
    assert(raw@ != seq!['~']);
    owned(raw)
}

/// `raw` with a leading `~` expanded to the user's home directory.
pub fn expand_tilde_path(raw: &str) -> (r: String)
    ensures
        exists|home: Option<Seq<char>>| known_home(home) && r@ == expand_tilde_spec(raw@, home),
{
    let home = home_dir();
    proof {
        assert(known_home(cli::opt_string_view(home)));
    }
    expand_tilde_in(raw, home)
}

/// The name of a backend as the configuration writes it.
pub open spec fn backend_name(b: StorageBackend) -> Seq<char> {
    match b {
        StorageBackend::Local => "local"@,
        StorageBackend::Cloud => "cloud"@,
    }
}

/// How a password is shown: never in clear.
pub open spec fn password_display(p: Seq<char>) -> Seq<char> {
    if p.len() == 0 {
        "(not set)"@
    } else {
        "***redacted***"@
    }
}

/// How a password is reported in machine-readable output: empty stays empty.
pub open spec fn password_redacted(p: Seq<char>) -> Seq<char> {
    if p.len() == 0 {
        Seq::empty()
    } else {
        "***redacted***"@
    }
}

/// The remote settings as machine-readable output reports them.
pub open spec fn redacted_cloud(c: CloudView) -> Seq<(Seq<char>, JsonView)> {
    seq![
        ("url"@, JsonView::Str(c.url)),
        ("namespace"@, JsonView::Str(c.namespace)),
        ("database"@, JsonView::Str(c.database)),
        ("username"@, JsonView::Str(c.username)),
        ("password"@, JsonView::Str(password_redacted(c.password))),
        ("auth_type"@, JsonView::Str(c.auth_type)),
    ]
}

/// The members of the machine-readable configuration report.
pub open spec fn redacted_members(c: ConfigView, global_path: Seq<char>) -> Seq<(Seq<char>, JsonView)> {
    seq![
        ("backend"@, JsonView::Str(backend_name(c.backend))),
        ("local"@, JsonView::Object(seq![("path"@, JsonView::Str(c.local_path))])),
        ("cloud"@, JsonView::Object(redacted_cloud(c.cloud))),
        ("qdrant_url"@, JsonView::Str(c.qdrant_url)),
        ("global_config_path"@, JsonView::Str(global_path)),
        ("local_config_path"@, JsonView::Str("dunno.toml"@)),
    ]
}

/// The machine-readable configuration report.
pub open spec fn redacted_doc(c: ConfigView, global_path: Seq<char>) -> JsonView {
    JsonView::Object(redacted_members(c, global_path))
}

/// The heading of the configuration report.
pub open spec fn render_head(c: ConfigView) -> Seq<char> {
    "=== Configuration ===\n\n"@ + "Backend: "@ + backend_name(c.backend) + "\n\n"@
}

/// The section of the report on the store in use.
pub open spec fn render_store(c: ConfigView) -> Seq<char> {
    match c.backend {
        StorageBackend::Local => "--- Local Storage ---\n"@ + "Database Path: "@ + c.local_path + "\n"@,
        StorageBackend::Cloud => "--- Cloud Settings ---\n"@ + "URL: "@ + c.cloud.url + "\n"@
            + "Namespace: "@ + c.cloud.namespace + "\n"@ + "Database: "@ + c.cloud.database + "\n"@
            + "Username: "@ + c.cloud.username + "\n"@ + "Password: "@ + password_display(
            c.cloud.password,
        ) + "\n"@ + "Auth Type: "@ + c.cloud.auth_type + "\n"@,
    }
}

/// The closing sections of the report: the vector store and the file paths.
pub open spec fn render_tail(c: ConfigView, global_path: Seq<char>) -> Seq<char> {
    "\n--- Vector Store ---\n"@ + "Qdrant URL: "@ + c.qdrant_url + "\n"@ + "\n--- Config File Paths ---\n"@
        + "Global: "@ + global_path + "\n"@ + "Local: "@ + "dunno.toml"@ + "\n"@
}

/// The configuration report, with the global file at `global_path`.
pub open spec fn render(c: ConfigView, global_path: Seq<char>) -> Seq<char> {
    render_head(c) + render_store(c) + render_tail(c, global_path)
}

fn backend_name_str(b: StorageBackend) -> (r: &'static str)
    ensures
        r@ == backend_name(b),
{
    match b {
        StorageBackend::Local => "local",
        StorageBackend::Cloud => "cloud",
    }
}

fn password_display_str(p: &String) -> (r: &'static str)
    ensures
        r@ == password_display(p@),
{
    if p.as_str().is_empty() {
        "(not set)"
    } else {
        "***redacted***"
    }
}

impl Config {
    /// The global configuration file: `.config/dunno/dunno.toml` under the
    /// home directory (or the working directory where there is none).
    pub fn global_config_path() -> (r: String)
        ensures
            exists|home: Option<Seq<char>>| known_home(home) && r@ == global_config_path_spec(home),
    {
        let home = home_dir();
        proof {
            assert(known_home(cli::opt_string_view(home)));
        }
        global_config_path_in(home)
    }

    /// The local configuration file: `dunno.toml` in the working directory.
    pub fn local_config_path() -> (r: String)
        ensures
            r@ == "dunno.toml"@,
    {
        owned("dunno.toml")
    }

    /// The marker file that the desktop interface writes while it manages a
    /// store: `.local/share/dunno/ui-server.port` under the home directory.
    pub fn ui_server_marker_path() -> (r: String)
        ensures
            exists|home: Option<Seq<char>>| known_home(home) && r@ == ui_server_marker_path_spec(home),
    {
        let home = home_dir();
        proof {
            assert(known_home(cli::opt_string_view(home)));
        }
        ui_server_marker_path_in(home)
    }

    /// The path of the embedded store, with a leading `~` expanded.
    pub fn local_data_path(&self) -> (r: String)
        ensures
            exists|home: Option<Seq<char>>| known_home(home) && r@ == expand_tilde_spec(self.local.path@, home),
    {
        expand_tilde_path(self.local.path.as_str())
    }

    /// The password as machine-readable output reports it.
    pub fn redacted_password(&self) -> (r: String)
        ensures
            r@ == password_redacted(self.cloud.password@),
    {
        if self.cloud.password.as_str().is_empty() {
            String::new()
        } else {
            owned("***redacted***")
        }
    }

    /// The configuration report, with the global file at `global_path`.
    pub fn formatted_with(&self, global_path: &str) -> (r: String)
        ensures
            r@ == render(self@, global_path@),
    {
        let mut head = owned("=== Configuration ===\n\n");
        head.append("Backend: ");
        head.append(backend_name_str(self.backend));
        head.append("\n\n");
        let store = match self.backend {
            StorageBackend::Local => {
                let mut s = owned("--- Local Storage ---\n");
                s.append("Database Path: ");
                s.append(self.local.path.as_str());
                s.append("\n");
                s
            },
            StorageBackend::Cloud => {
                let mut s = owned("--- Cloud Settings ---\n");
                s.append("URL: ");
                s.append(self.cloud.url.as_str());
                s.append("\n");
                s.append("Namespace: ");
                s.append(self.cloud.namespace.as_str());
                s.append("\n");
                s.append("Database: ");
                s.append(self.cloud.database.as_str());
                s.append("\n");
                s.append("Username: ");
                s.append(self.cloud.username.as_str());
                s.append("\n");
                s.append("Password: ");
                s.append(password_display_str(&self.cloud.password));
                s.append("\n");
                s.append("Auth Type: ");
                s.append(self.cloud.auth_type.as_str());
                s.append("\n");
                s
            },
        };
        let mut tail = owned("\n--- Vector Store ---\n");
        tail.append("Qdrant URL: ");
        tail.append(self.qdrant_url.as_str());
        tail.append("\n");
        tail.append("\n--- Config File Paths ---\n");
        tail.append("Global: ");
        tail.append(global_path);
        tail.append("\n");
        tail.append("Local: ");
        tail.append("dunno.toml");
        tail.append("\n");
        head.append(store.as_str());
        head.append(tail.as_str());
        head
    }

    /// The configuration as machine-readable output reports it, with the
    /// global file at `global_path`: every setting, the password redacted,
    /// and the paths of the two configuration files.
    pub fn redacted_json_with(&self, global_path: &str) -> (r: Json)
        ensures
            r@ == redacted_doc(self@, global_path@),
    {
        let local = vec![(owned("path"), Json::Str(self.local.path.clone()))];
        let cloud = vec![
            (owned("url"), Json::Str(self.cloud.url.clone())),
            (owned("namespace"), Json::Str(self.cloud.namespace.clone())),
            (owned("database"), Json::Str(self.cloud.database.clone())),
            (owned("username"), Json::Str(self.cloud.username.clone())),
            (owned("password"), Json::Str(self.redacted_password())),
            (owned("auth_type"), Json::Str(self.cloud.auth_type.clone())),
        ];
        proof {
            lemma_object_view(local);
            lemma_object_view(cloud);
        }
        let ghost lv = members_view(local@);
        let ghost cv = members_view(cloud@);
        let doc = vec![
            (owned("backend"), Json::Str(owned(backend_name_str(self.backend)))),
            (owned("local"), Json::Object(local)),
            (owned("cloud"), Json::Object(cloud)),
            (owned("qdrant_url"), Json::Str(self.qdrant_url.clone())),
            (owned("global_config_path"), Json::Str(owned(global_path))),
            (owned("local_config_path"), Json::Str(owned("dunno.toml"))),
        ];
        proof {
            lemma_object_view(doc);
            assert(lv =~= seq![("path"@, JsonView::Str(self.local.path@))]);
            assert(cv =~= redacted_cloud(self@.cloud));
            assert(members_view(doc@) =~= redacted_members(self@, global_path@));
        }
        Json::Object(doc)
    }

    /// The configuration as machine-readable output reports it: every
    /// setting, the password redacted, and the paths of the two files.
    pub fn redacted_json(&self) -> (r: Json)
        ensures
            exists|home: Option<Seq<char>>| known_home(home) && r@ == redacted_doc(self@, global_config_path_spec(home)),
    {
        let g = Self::global_config_path();
        self.redacted_json_with(g.as_str())
    }

    /// The configuration report shown by `config show`: the backend, the
    /// settings of the store in use (the password never in clear), the
    /// vector store and the paths of the two configuration files.
    pub fn formatted(&self) -> (r: String)
        ensures
            exists|home: Option<Seq<char>>| known_home(home) && r@ == render(self@, global_config_path_spec(home)),
    {
        let g = Self::global_config_path();
        self.formatted_with(g.as_str())
    }
}

// ---------------------------------------------------------------------------
// Laws of the layering
// ---------------------------------------------------------------------------

/// A layer fails only on a backend name that is not valid; otherwise every
/// setting it names takes its value, and every other setting is kept.
pub proof fn lemma_merge_overrides_only_named(c: ConfigView, p: PartialView)
    ensures
        merge_spec(c, p) is Err <==> (p.backend matches Some(v) && backend_of(v) is None),
        merge_spec(c, p) matches Ok(r) ==> {
            &&& r.backend == match p.backend {
                Some(v) => backend_of(v)->0,
                None => c.backend,
            }
            &&& r.local_path == pick(p.local_path, c.local_path)
            &&& r.cloud.url == pick(p.cloud.url, c.cloud.url)
            &&& r.cloud.namespace == pick(p.cloud.namespace, c.cloud.namespace)
            &&& r.cloud.database == pick(p.cloud.database, c.cloud.database)
            &&& r.cloud.username == pick(p.cloud.username, c.cloud.username)
            &&& r.cloud.password == pick(p.cloud.password, c.cloud.password)
            &&& r.cloud.auth_type == pick(p.cloud.auth_type, c.cloud.auth_type)
            &&& r.qdrant_url == pick(p.qdrant_url, c.qdrant_url)
        },
{
}

/// Laying the same layer twice is laying it once.
pub proof fn lemma_merge_idempotent(c: ConfigView, p: PartialView)
    requires
        merge_spec(c, p) is Ok,
    ensures
        merge_spec(merge_spec(c, p)->Ok_0, p) == merge_spec(c, p),
{
}

/// Of the environment, the last value set for a name counts.
pub proof fn lemma_env_last_value_wins(
    pairs: Seq<(Seq<char>, Option<Seq<char>>)>,
    key: Seq<char>,
    other: Seq<char>,
    v: Option<Seq<char>>,
)
    requires
        other != key,
    ensures
        v is Some ==> env_value(pairs.push((key, v)), key) == v,
        v is None ==> env_value(pairs.push((key, v)), key) == env_value(pairs, key),
        env_value(pairs.push((other, v)), key) == env_value(pairs, key),
{
    assert(pairs.push((key, v)).drop_last() =~= pairs);
    assert(pairs.push((other, v)).drop_last() =~= pairs);
}

/// With no file, no environment, no command line and no managed store, the
/// configuration is the built-in one.
pub proof fn lemma_defaults_without_layers()
    ensures
        load_spec(None, ConfigFileView::Missing, ConfigFileView::Missing, Seq::empty(), None) == Ok::<
            ConfigView,
            ConfigErrorView,
        >(default_view()),
{
    let e: Seq<(Seq<char>, Option<Seq<char>>)> = Seq::empty();
    assert(env_partial(e).backend is None);
    assert(env_partial(e).local_path is None);
    assert(env_partial(e).cloud.url is None);
    assert(env_partial(e).cloud.namespace is None);
    assert(env_partial(e).cloud.database is None);
    assert(env_partial(e).cloud.username is None);
    assert(env_partial(e).cloud.password is None);
    assert(env_partial(e).cloud.auth_type is None);
}

/// A valid backend named on the command line is the backend in use, unless
/// it is the local one and a managed store takes over.
pub proof fn lemma_cli_backend_wins(
    cli: Seq<char>,
    global: ConfigFileView,
    local: ConfigFileView,
    env: Seq<(Seq<char>, Option<Seq<char>>)>,
    marker: Option<Seq<char>>,
)
    requires
        backend_of(cli) is Some,
        load_spec(Some(cli), global, local, env, marker) is Ok,
        !(backend_of(cli) == Some(StorageBackend::Local) && marker_url(marker) is Some),
    ensures
        load_spec(Some(cli), global, local, env, marker)->Ok_0.backend == backend_of(cli)->0,
{
}

/// A setting that the local file names, and that neither the environment
/// nor the command line names, has the local file's value (whatever the
/// global file says), unless a managed store takes over.
pub proof fn lemma_local_file_overrides_global(
    cli: Option<Seq<char>>,
    global: ConfigFileView,
    pl: PartialView,
    env: Seq<(Seq<char>, Option<Seq<char>>)>,
    marker: Option<Seq<char>>,
)
    requires
        load_spec(cli, global, ConfigFileView::Parsed(pl), env, marker) is Ok,
        marker_url(marker) is None,
    ensures
        ({
            let c = load_spec(cli, global, ConfigFileView::Parsed(pl), env, marker)->Ok_0;
            &&& (pl.cloud.url is Some && env_value(env, "DUNNO_CLOUD_URL"@) is None) ==> c.cloud.url
                == pl.cloud.url->0
            &&& (pl.local_path is Some && env_value(env, "DUNNO_LOCAL_PATH"@) is None) ==> c.local_path
                == pl.local_path->0
            &&& pl.qdrant_url is Some ==> c.qdrant_url == pl.qdrant_url->0
            &&& (pl.backend is Some && env_value(env, "DUNNO_BACKEND"@) is None && cli is None) ==> c.backend
                == backend_of(pl.backend->0)->0
        }),
{
}

} // verus!
