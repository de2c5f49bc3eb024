//! Server settings: a root directory to publish and a TCP port to listen
//! on, loaded by merging built-in defaults with values taken from the
//! `SERVEIT_`-prefixed process environment.

use vstd::prelude::*;
use vstd::string::StringExecFns;
use crate::text::dec_value;
use crate::text::is_digits;
use crate::text::parse_u16;

verus! {

/// The mathematical content of a `Settings` value.
pub struct SettingsModel {
    pub port: nat,
    pub root_dir: Seq<char>,
}

/// Immutable server configuration: the directory whose contents are
/// published and the TCP port the listener binds.
#[derive(Debug)]
pub struct Settings {
    root_dir: String,
    port: u16,
}

impl View for Settings {
    type V = SettingsModel;

    closed spec fn view(&self) -> SettingsModel {
        SettingsModel { port: self.port as nat, root_dir: self.root_dir@ }
    }
}

/// The built-in defaults: port 4000, serving the current directory.
pub open spec fn default_model() -> SettingsModel {
    SettingsModel { port: 4000, root_dir: seq!['.'] }
}

/// A string that denotes a port: all digits, value at most 65535.
pub open spec fn is_port_value(s: Seq<char>) -> bool {
    is_digits(s) && dec_value(s) <= u16::MAX
}

/// What loading yields from an optional port string and an optional root
/// directory: each absent value falls back to its default, a present
/// root directory is taken verbatim, a present port string must denote
/// a port or loading fails.
pub open spec fn loaded_model(port: Option<Seq<char>>, root_dir: Option<Seq<char>>) -> Option<
    SettingsModel,
> {
    match port {
        Some(p) => if is_port_value(p) {
            Some(SettingsModel { port: dec_value(p), root_dir: loaded_root(root_dir) })
        } else {
            None
        },
        None => Some(SettingsModel { port: 4000, root_dir: loaded_root(root_dir) }),
    }
}

/// The root directory a loaded configuration carries.
pub open spec fn loaded_root(root_dir: Option<Seq<char>>) -> Seq<char> {
    match root_dir {
        Some(d) => d,
        None => seq!['.'],
    }
}

/// Loading failed: an environment value could not be parsed. The
/// diagnostic names the offending variable.
#[derive(Debug)]
pub enum SettingsError {
    InvalidPort { value: String },
}

impl View for SettingsError {
    type V = Seq<char>;

    closed spec fn view(&self) -> Seq<char> {
        match self {
            SettingsError::InvalidPort { value } => value@,
        }
    }
}

impl SettingsError {
    /// The diagnostic text, naming the variable whose value was rejected.
    pub fn message(&self) -> (r: String)
        ensures
            r@ == "invalid value for SERVEIT_PORT: "@ + self@,
    {
        let mut r = String::from_str("invalid value for SERVEIT_PORT: ");
        match self {
            SettingsError::InvalidPort { value } => {
                r.append(value.as_str());
            },
        }
        r
    }
}

impl Default for Settings {
    /// The hard-coded defaults; total, never fails.
    fn default() -> (r: Settings)
        ensures
            r@ == default_model(),
    {
        let r = Settings { root_dir: String::from_str("."), port: 4000 };
        proof {
            reveal_strlit(".");
            assert(r@.root_dir =~= default_model().root_dir);
        }
        r
    }
}

impl Settings {
    /// Merges optional textual values over the defaults: an absent value
    /// falls back to its default, a present root directory is taken
    /// verbatim, and a present port string must parse as a decimal
    /// `u16` — otherwise loading fails and the error carries the
    /// rejected text.
    pub fn from_values(port: Option<String>, root_dir: Option<String>) -> (r: Result<
        Settings,
        SettingsError,
    >)
        ensures
            match r {
                Ok(s) => loaded_model(port.deep_view(), root_dir.deep_view()) == Some(s@),
                Err(e) => {
                    &&& loaded_model(port.deep_view(), root_dir.deep_view()) is None
                    &&& port matches Some(p) && e@ == p@
                },
            },
    {
        let root: String = match root_dir {
            Some(d) => d,
            None => {
                let d = String::from_str(".");
                proof {
                    reveal_strlit(".");
                    assert(d@ =~= seq!['.']);
                }
                d
            },
        };
        match port {
            None => Ok(Settings { root_dir: root, port: 4000 }),
            Some(p) => match parse_u16(p.as_str()) {
                Some(v) => Ok(Settings { root_dir: root, port: v }),
                None => Err(SettingsError::InvalidPort { value: p }),
            },
        }
    }

    /// Loads settings from the process environment: `SERVEIT_PORT` and
    /// `SERVEIT_ROOT_DIR` override the defaults; any other variables are
    /// ignored. Whatever the environment held, an `Ok` result is a
    /// configuration that `loaded_model` admits for some pair of values,
    /// and an `Err` carries a value that denotes no port.
    pub fn from_env() -> (r: Result<Settings, SettingsError>)
        ensures
            r matches Ok(s) ==> exists|p: Option<Seq<char>>, d: Option<Seq<char>>|
                #[trigger] loaded_model(p, d) == Some(s@),
            r matches Err(e) ==> !is_port_value(e@),
    {
        let port = env_setting("port");
        let root_dir = env_setting("root_dir");
        let ghost p = port.deep_view();
        let ghost d = root_dir.deep_view();
        let r = Settings::from_values(port, root_dir);
        proof {
            if r is Ok {
                assert(loaded_model(p, d) == Some(r->Ok_0@));
            }
        }
        r
    }

    /// The directory whose contents are published.
    pub fn root_dir(&self) -> (r: &str)
        ensures
            r@ == self@.root_dir,
    {
        self.root_dir.as_str()
    }

    /// The TCP port the server listens on.
    pub fn port(&self) -> (r: u16)
        ensures
            r as nat == self@.port,
    {
        self.port
    }
}

/// Relies on `config::Config` built over `config::Environment::with_prefix`:
/// reads the process environment variable whose name is `SERVEIT_` followed
/// by the upper-cased key, and returns its value as a string, or `None`
/// when no such variable is set. The result depends on the environment,
/// so nothing is promised of it.
#[verifier::external_body]
fn env_setting(key: &str) -> (r: Option<String>) {
    let source = config::Environment::with_prefix("SERVEIT");
    match config::Config::builder().add_source(source).build() {
        Ok(cfg) => cfg.get_string(key).ok(),
        Err(_) => None,
    }
}

/// Setting only a valid port string and a root directory loads exactly
/// that port value and that directory.
pub proof fn lemma_env_override(p: Seq<char>, d: Seq<char>)
    requires
        is_port_value(p),
    ensures
        loaded_model(Some(p), Some(d)) == Some(
            SettingsModel { port: dec_value(p), root_dir: d },
        ),
{
}

/// With no environment values at all, loading yields the defaults.
pub proof fn lemma_env_absence()
    ensures
        loaded_model(None, None) == Some(default_model()),
{
}

} // verus!
