//! Client configuration records and the rules around them: which path a run
//! reads its configuration from, and the default path under the home
//! directory. Reading and writing the file itself is the caller's work.

use vstd::prelude::*;

use crate::text::{opt_string_view, string_views};

verus! {

/// API settings: service endpoint and model names.
#[derive(Debug, Clone)]
pub struct ApiSection {
    pub base_url: Option<String>,
    pub api_key: Option<String>,
    pub embedding_model: Option<String>,
    pub llm_model: Option<String>,
}

/// Server settings: port, indexed directories, reload interval and index
/// name.
#[derive(Debug, Clone)]
pub struct ServerSection {
    pub port: Option<u16>,
    pub directories: Vec<String>,
    pub reload_interval: Option<u64>,
    pub index_name: Option<String>,
}

/// The whole configuration record.
#[derive(Debug, Clone)]
pub struct Config {
    pub api: ApiSection,
    pub server: ServerSection,
}

/// Mathematical model of an [`ApiSection`].
pub struct ApiSectionView {
    pub base_url: Option<Seq<char>>,
    pub api_key: Option<Seq<char>>,
    pub embedding_model: Option<Seq<char>>,
    pub llm_model: Option<Seq<char>>,
}

/// Mathematical model of a [`ServerSection`].
pub struct ServerSectionView {
    pub port: Option<u16>,
    pub directories: Seq<Seq<char>>,
    pub reload_interval: Option<u64>,
    pub index_name: Option<Seq<char>>,
}

/// Mathematical model of a [`Config`].
pub struct ConfigView {
    pub api: ApiSectionView,
    pub server: ServerSectionView,
}

impl View for ApiSection {
    type V = ApiSectionView;

    open spec fn view(&self) -> ApiSectionView {
        ApiSectionView {
            base_url: opt_string_view(self.base_url),
            api_key: opt_string_view(self.api_key),
            embedding_model: opt_string_view(self.embedding_model),
            llm_model: opt_string_view(self.llm_model),
        }
    }
}

impl View for ServerSection {
    type V = ServerSectionView;

    open spec fn view(&self) -> ServerSectionView {
        ServerSectionView {
            port: self.port,
            directories: string_views(self.directories@),
            reload_interval: self.reload_interval,
            index_name: opt_string_view(self.index_name),
        }
    }
}

impl View for Config {
    type V = ConfigView;

    open spec fn view(&self) -> ConfigView {
        ConfigView { api: self.api@, server: self.server@ }
    }
}

impl Default for ApiSection {
    /// An empty section: every setting absent.
    fn default() -> (r: ApiSection)
        ensures
            r.base_url is None,
            r.api_key is None,
            r.embedding_model is None,
            r.llm_model is None,
    {
        ApiSection { base_url: None, api_key: None, embedding_model: None, llm_model: None }
    }
}

impl Default for ServerSection {
    /// An empty section: every setting absent, no directories.
    fn default() -> (r: ServerSection)
        ensures
            r.port is None,
            r.directories@.len() == 0,
            r.reload_interval is None,
            r.index_name is None,
    {
        ServerSection { port: None, directories: Vec::new(), reload_interval: None, index_name: None }
    }
}

impl Default for Config {
    /// The built-in configuration: both sections empty.
    fn default() -> (r: Config)
        ensures
            r.api.base_url is None,
            r.api.api_key is None,
            r.api.embedding_model is None,
            r.api.llm_model is None,
            r.server.port is None,
            r.server.directories@.len() == 0,
            r.server.reload_interval is None,
            r.server.index_name is None,
    {
        Config { api: ApiSection::default(), server: ServerSection::default() }
    }
}

// ─── Where the configuration is read from ────────────────────────────────

/// Configuration load/save failure.
#[derive(Debug)]
pub enum ConfigError {
    Io(String),
}

impl ConfigError {
    /// What this failure reads as, one line of text.
    pub fn message(&self) -> (r: String)
        ensures
            self matches ConfigError::Io(s) && r@ == "IO error: "@ + s@,
    {
        match self {
            ConfigError::Io(s) => {
                let mut r = "IO error: ".to_owned();
                r.append(s.as_str());
                r
            },
        }
    }
}

/// The default configuration file path under a home directory:
/// `<home>/.md-qa/config.yaml`; none without a home directory.
pub fn default_config_path(home: Option<String>) -> (r: Option<String>)
    ensures
        r matches Some(p) ==> home matches Some(h) && p@ == h@ + "/.md-qa/config.yaml"@,
        r is Some <==> home is Some,
{
    match home {
        None => None,
        Some(h) => {
            let mut p = h;
            p.append("/.md-qa/config.yaml");
            Some(p)
        },
    }
}

/// The path one run loads its configuration from: the command-line override
/// first, else the environment's path, else the default path where that
/// file exists; none otherwise, and the built-in defaults apply. The two
/// overrides are demanded even where no file exists at them: a missing
/// override is a load failure, not a fallback.
pub fn config_path_to_load(
    cli_override_path: Option<String>,
    env_path: Option<String>,
    default_path: Option<String>,
    default_exists: bool,
) -> (r: Option<String>)
    ensures
        cli_override_path is Some ==> r == cli_override_path,
        cli_override_path is None && env_path is Some ==> r == env_path,
        cli_override_path is None && env_path is None && default_path is Some && default_exists
            ==> r == default_path,
        cli_override_path is None && env_path is None && (default_path is None
            || !default_exists) ==> r is None,
{
    match cli_override_path {
        Some(p) => Some(p),
        None => match env_path {
            Some(p) => Some(p),
            None => match default_path {
                Some(p) => if default_exists {
                    Some(p)
                } else {
                    None
                },
                None => None,
            },
        },
    }
}

/// The failure text for a configuration file that could not be loaded.
pub fn load_error_message(path: &str, err: &str) -> (r: String)
    ensures
        r@ == "Error: failed to load config from "@ + path@ + ": "@ + err@,
{
    let mut s = "Error: failed to load config from ".to_owned();
    s.append(path);
    s.append(": ");
    s.append(err);
    proof {
        assert(s@ =~= "Error: failed to load config from "@ + path@ + ": "@ + err@);
    }
    s
}

} // verus!
