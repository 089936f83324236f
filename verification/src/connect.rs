//! How to open the store that a configuration names: which address, which
//! namespace and database, and how to sign in.

use vstd::prelude::*;
use crate::cli;
use crate::config::{Config, ConfigView, StorageBackend, expand_tilde_spec};
use crate::text;
use crate::text::{concat, owned, str_eq, trim_str};

verus! {

/// How to sign in.
#[derive(Debug)]
pub enum SignIn {
    Root { username: String, password: String },
    Namespace { namespace: String, username: String, password: String },
    Database { namespace: String, database: String, username: String, password: String },
}

/// A way to sign in as character sequences.
pub enum SignInView {
    Root(Seq<char>, Seq<char>),
    Namespace(Seq<char>, Seq<char>, Seq<char>),
    Database(Seq<char>, Seq<char>, Seq<char>, Seq<char>),
}

impl View for SignIn {
    type V = SignInView;

    open spec fn view(&self) -> SignInView {
        match self {
            SignIn::Root { username, password } => SignInView::Root(username@, password@),
            SignIn::Namespace { namespace, username, password } => SignInView::Namespace(
                namespace@,
                username@,
                password@,
            ),
            SignIn::Database { namespace, database, username, password } => SignInView::Database(
                namespace@,
                database@,
                username@,
                password@,
            ),
        }
    }
}

/// How to open the store: connect to `url`, sign in (before or after
/// choosing the namespace and database), choose them.
#[derive(Debug)]
pub struct ConnectionPlan {
    pub url: String,
    pub namespace: String,
    pub database: String,
    pub signin: Option<SignIn>,
    pub signin_first: bool,
}

/// A plan as character sequences.
pub struct PlanView {
    pub url: Seq<char>,
    pub namespace: Seq<char>,
    pub database: Seq<char>,
    pub signin: Option<SignInView>,
    pub signin_first: bool,
}

impl View for ConnectionPlan {
    type V = PlanView;

    open spec fn view(&self) -> PlanView {
        PlanView {
            url: self.url@,
            namespace: self.namespace@,
            database: self.database@,
            signin: match self.signin {
                Some(s) => Some(s@),
                None => None,
            },
            signin_first: self.signin_first,
        }
    }
}

/// A setting of the remote store that is missing.
#[derive(Debug, Clone, Copy, PartialEq, Eq, Structural)]
pub enum ConnectError {
    MissingUrl,
    MissingNamespace,
    MissingDatabase,
    MissingUsername,
    MissingPassword,
}

/// The text of a connection error.
pub open spec fn connect_message(e: ConnectError) -> Seq<char> {
    match e {
        ConnectError::MissingUrl => "Cloud backend requires `cloud.url` (or DUNNO_CLOUD_URL)"@,
        ConnectError::MissingNamespace => "Cloud backend requires `cloud.namespace` (or DUNNO_CLOUD_NS)"@,
        ConnectError::MissingDatabase => "Cloud backend requires `cloud.database` (or DUNNO_CLOUD_DB)"@,
        ConnectError::MissingUsername => "Cloud backend requires `cloud.username` (or DUNNO_CLOUD_USER)"@,
        ConnectError::MissingPassword => "Cloud backend requires `cloud.password` (or DUNNO_CLOUD_PASS)"@,
    }
}

impl ConnectError {
    /// The text of the error.
    pub fn message(&self) -> (r: String)
        ensures
            r@ == connect_message(*self),
    {
        match self {
            ConnectError::MissingUrl => owned("Cloud backend requires `cloud.url` (or DUNNO_CLOUD_URL)"),
            ConnectError::MissingNamespace => owned("Cloud backend requires `cloud.namespace` (or DUNNO_CLOUD_NS)"),
            ConnectError::MissingDatabase => owned("Cloud backend requires `cloud.database` (or DUNNO_CLOUD_DB)"),
            ConnectError::MissingUsername => owned("Cloud backend requires `cloud.username` (or DUNNO_CLOUD_USER)"),
            ConnectError::MissingPassword => owned("Cloud backend requires `cloud.password` (or DUNNO_CLOUD_PASS)"),
        }
    }
}

/// `s` starts with `p`.
pub open spec fn starts_with(s: Seq<char>, p: Seq<char>) -> bool {
    p.len() <= s.len() && s.take(p.len() as int) == p
}

/// Whether `s` starts with `p`, as `str::starts_with` tells.
pub fn has_prefix(s: &str, p: &str) -> (r: bool)
    ensures
        r == starts_with(s@, p@),
{
    let n = s.unicode_len();
    let m = p.unicode_len();
    if m > n {
        return false;
    }
    let head = s.substring_char(0, m);
    let r = str_eq(head, p);
    assert(head@ =~= s@.take(m as int));
    r
}

/// The address is a network address, where signing in is needed.
pub open spec fn is_network_url(url: Seq<char>) -> bool {
    starts_with(url, "ws://"@) || starts_with(url, "wss://"@) || starts_with(url, "http://"@) || starts_with(
        url,
        "https://"@,
    )
}

/// The plan for the embedded store at `data_path`.
pub open spec fn local_plan_spec(data_path: Seq<char>) -> PlanView {
    let url = "surrealkv://"@ + data_path;
    PlanView {
        url,
        namespace: "dunno"@,
        database: "dunno"@,
        signin: if is_network_url(url) {
            Some(SignInView::Root("root"@, "root"@))
        } else {
            None
        },
        signin_first: true,
    }
}

/// The first remote setting that is blank, if any.
pub open spec fn cloud_missing(c: ConfigView) -> Option<ConnectError> {
    if text::trim(c.cloud.url).len() == 0 {
        Some(ConnectError::MissingUrl)
    } else if text::trim(c.cloud.namespace).len() == 0 {
        Some(ConnectError::MissingNamespace)
    } else if text::trim(c.cloud.database).len() == 0 {
        Some(ConnectError::MissingDatabase)
    } else if text::trim(c.cloud.username).len() == 0 {
        Some(ConnectError::MissingUsername)
    } else if text::trim(c.cloud.password).len() == 0 {
        Some(ConnectError::MissingPassword)
    } else {
        None
    }
}

/// The plan for the remote store: sign in by the kind that `auth_type`
/// names (`namespace`, `database`, else root).
pub open spec fn cloud_plan_spec(c: ConfigView) -> PlanView {
    PlanView {
        url: c.cloud.url,
        namespace: c.cloud.namespace,
        database: c.cloud.database,
        signin: Some(
            if c.cloud.auth_type == "namespace"@ {
                SignInView::Namespace(c.cloud.namespace, c.cloud.username, c.cloud.password)
            } else if c.cloud.auth_type == "database"@ {
                SignInView::Database(c.cloud.namespace, c.cloud.database, c.cloud.username, c.cloud.password)
            } else {
                SignInView::Root(c.cloud.username, c.cloud.password)
            },
        ),
        signin_first: false,
    }
}

/// The plan for a configuration, with the embedded store at `data_path`.
pub open spec fn plan_spec(c: ConfigView, data_path: Seq<char>) -> Result<PlanView, ConnectError> {
    match c.backend {
        StorageBackend::Local => Ok(local_plan_spec(data_path)),
        StorageBackend::Cloud => match cloud_missing(c) {
            Some(e) => Err(e),
            None => Ok(cloud_plan_spec(c)),
        },
    }
}

/// The plan for a store given by address: the in-memory store needs no
/// signing in; any other is signed in to as root.
pub open spec fn url_plan_spec(url: Seq<char>) -> PlanView {
    PlanView {
        url,
        namespace: "dunno"@,
        database: "dunno"@,
        signin: if starts_with(url, "mem:"@) {
            None
        } else {
            Some(SignInView::Root("root"@, "root"@))
        },
        signin_first: true,
    }
}

fn blank(s: &String) -> (r: bool)
    ensures
        r == (text::trim(s@).len() == 0),
{
    trim_str(s.as_str()).unicode_len() == 0
}

/// How to open the store given by address.
pub fn url_plan(url: &str) -> (r: ConnectionPlan)
    ensures
        r@ == url_plan_spec(url@),
{
    let signin = if has_prefix(url, "mem:") {
        None
    } else {
        Some(SignIn::Root { username: owned("root"), password: owned("root") })
    };
    ConnectionPlan { url: owned(url), namespace: owned("dunno"), database: owned("dunno"), signin, signin_first: true }
}

impl Config {
    /// How to open the store of this configuration, with the embedded store
    /// at `data_path`; an error where a remote setting is blank.
    pub fn connection_plan_with(&self, data_path: &str) -> (r: Result<ConnectionPlan, ConnectError>)
        ensures
            match plan_spec(self@, data_path@) {
                Ok(p) => r matches Ok(x) && x@ == p,
                Err(e) => r == Err::<ConnectionPlan, ConnectError>(e),
            },
    {
        match self.backend {
            StorageBackend::Local => {
                let url = concat("surrealkv://", data_path);
                let network = has_prefix(url.as_str(), "ws://") || has_prefix(url.as_str(), "wss://") || has_prefix(
                    url.as_str(),
                    "http://",
                ) || has_prefix(url.as_str(), "https://");
                let signin = if network {
                    Some(SignIn::Root { username: owned("root"), password: owned("root") })
                } else {
                    None
                };
                Ok(
                    ConnectionPlan {
                        url,
                        namespace: owned("dunno"),
                        database: owned("dunno"),
                        signin,
                        signin_first: true,
                    },
                )
            },
            StorageBackend::Cloud => {
                let c = &self.cloud;
                if blank(&c.url) {
                    return Err(ConnectError::MissingUrl);
                }
                if blank(&c.namespace) {
                    return Err(ConnectError::MissingNamespace);
                }
                if blank(&c.database) {
                    return Err(ConnectError::MissingDatabase);
                }
                if blank(&c.username) {
                    return Err(ConnectError::MissingUsername);
                }
                if blank(&c.password) {
                    return Err(ConnectError::MissingPassword);
                }
                let signin = if str_eq(c.auth_type.as_str(), "namespace") {
                    SignIn::Namespace {
                        namespace: c.namespace.clone(),
                        username: c.username.clone(),
                        password: c.password.clone(),
                    }
                } else if str_eq(c.auth_type.as_str(), "database") {
                    SignIn::Database {
                        namespace: c.namespace.clone(),
                        database: c.database.clone(),
                        username: c.username.clone(),
                        password: c.password.clone(),
                    }
                } else {
                    SignIn::Root { username: c.username.clone(), password: c.password.clone() }
                };
                Ok(
                    ConnectionPlan {
                        url: c.url.clone(),
                        namespace: c.namespace.clone(),
                        database: c.database.clone(),
                        signin: Some(signin),
                        signin_first: false,
                    },
                )
            },
        }
    }

    /// How to open the store of this configuration, with the embedded store
    /// at the configured path (a leading `~` expanded).
    pub fn connection_plan(&self) -> (r: Result<ConnectionPlan, ConnectError>)
        ensures
            exists|home: Option<Seq<char>>|
                match #[trigger] plan_spec(self@, expand_tilde_spec(self.local.path@, home)) {
                    Ok(p) => r matches Ok(x) && x@ == p,
                    Err(e) => r == Err::<ConnectionPlan, ConnectError>(e),
                },
    {
        let path = self.local_data_path();
        self.connection_plan_with(path.as_str())
    }
}

} // verus!
