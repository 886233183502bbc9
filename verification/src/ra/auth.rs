//! The credentials of the RetroAchievements account.

use vstd::prelude::*;
use crate::text::option_view;
use crate::paths::{join, path_join};

verus! {

/// Directory, below the home directory, of the console's data.
pub const DATA_DIR: &'static str = ".local/share/kazeta-plus";

/// File name of the stored credentials.
pub const CREDENTIALS_FILE: &'static str = "ra_credentials.json";

/// File name of the front-end's configuration.
pub const BIOS_CONFIG_FILE: &'static str = "config.toml";

/// The credentials of an account.
#[derive(Debug, Clone)]
pub struct Credentials {
    pub username: String,
    pub api_key: String,
    pub token: Option<String>,
    pub hardcore: bool,
    /// When the token was last renewed, as an RFC 3339 time.
    pub last_sync: Option<String>,
}

impl Credentials {
    /// Credentials without token, not in hardcore mode, never synchronised.
    pub fn new(username: String, api_key: String) -> (r: Credentials)
        ensures
            r.username == username,
            r.api_key == api_key,
            r.token is None,
            !r.hardcore,
            r.last_sync is None,
    {
        Credentials { username, api_key, token: None, hardcore: false, last_sync: None }
    }
}

/// What the `retroachievements` table of the front-end's configuration
/// holds: a table with a user name and an API key, both texts and neither
/// empty, gives credentials; anything else gives none.
pub fn credentials_from_config(username: Option<String>, api_key: Option<String>) -> (r: Option<Credentials>)
    ensures
        match (username, api_key) {
            (Some(u), Some(k)) => if u@.len() > 0 && k@.len() > 0 {
                r matches Some(c) && c.username == u && c.api_key == k && c.token is None && !c.hardcore
                    && c.last_sync is None
            } else {
                r is None
            },
            _ => r is None,
        },
{
    match (username, api_key) {
        (Some(u), Some(k)) => {
            if !u.as_str().is_empty() && !k.as_str().is_empty() {
                Some(Credentials::new(u, k))
            } else {
                None
            }
        },
        _ => None,
    }
}

/// The error of the TOML parser.
#[verifier::external_type_specification]
#[verifier::external_body]
pub struct ExTomlError(toml::de::Error);

/// The text at `table.key` of a TOML document, as `toml::from_str` reads
/// the document and `Value::get` and `Value::as_str` find the text: the
/// outer `None` stands for a document that is not valid TOML, the inner
/// for a table or key that is missing or a value that is no text.
pub uninterp spec fn toml_text(content: Seq<char>, table: Seq<char>, key: Seq<char>) -> Option<Option<Seq<char>>>;

/// Reads a TOML document with `toml::from_str` into a `toml::Value` and
/// looks up `table`, then `key` in it with `Value::get`, then the text
/// with `Value::as_str`. The result is named [`toml_text`].
#[verifier::external_body]
fn toml_text_at(content: &str, table: &str, key: &str) -> (r: Result<Option<String>, toml::de::Error>)
    ensures
        match r {
            Ok(text) => toml_text(content@, table@, key@) == Some(option_view(text)),
            Err(_) => toml_text(content@, table@, key@) is None,
        },
{
    let document = toml::from_str::<toml::Value>(content)?;
    Ok(document.get(table).and_then(|t| t.get(key)).and_then(|v| v.as_str()).map(|s| s.to_string()))
}

/// Why the front-end's configuration gives no answer.
#[derive(Clone, Copy, Debug, PartialEq, Eq, Structural)]
pub enum ConfigError {
    /// The file is not valid TOML.
    InvalidToml,
}

/// The credentials that the content of the front-end's configuration
/// file holds in its `retroachievements` table.
pub fn load_from_bios_config(content: &str) -> (r: Result<Option<Credentials>, ConfigError>)
    ensures
        match r {
            Ok(found) => {
                &&& toml_text(content@, "retroachievements"@, "username"@) matches Some(u)
                &&& toml_text(content@, "retroachievements"@, "api_key"@) matches Some(k)
                &&& match (u, k) {
                    (Some(name), Some(key)) => if name.len() > 0 && key.len() > 0 {
                        found matches Some(c) && c.username@ == name && c.api_key@ == key && c.token is None
                            && !c.hardcore && c.last_sync is None
                    } else {
                        found is None
                    },
                    _ => found is None,
                }
            },
            Err(e) => e == ConfigError::InvalidToml && (toml_text(
                content@,
                "retroachievements"@,
                "username"@,
            ) is None || toml_text(content@, "retroachievements"@, "api_key"@) is None),
        },
{
    let username = match toml_text_at(content, "retroachievements", "username") {
        Ok(text) => text,
        Err(_) => {
            return Err(ConfigError::InvalidToml);
        },
    };
    let api_key = match toml_text_at(content, "retroachievements", "api_key") {
        Ok(text) => text,
        Err(_) => {
            return Err(ConfigError::InvalidToml);
        },
    };
    Ok(credentials_from_config(username, api_key))
}

/// Where the credentials are stored.
#[derive(Debug)]
pub struct CredentialManager {
    credentials_path: String,
}

impl CredentialManager {
    /// The path of the credentials file.
    pub closed spec fn spec_path(&self) -> Seq<char> {
        self.credentials_path@
    }

    /// The manager of the credentials below a home directory.
    pub fn new(home_dir: &str) -> (r: CredentialManager)
        ensures
            r.spec_path() == path_join(path_join(home_dir@, DATA_DIR@), CREDENTIALS_FILE@),
    {
        let data_dir = join(home_dir, DATA_DIR);
        CredentialManager { credentials_path: join(data_dir.as_str(), CREDENTIALS_FILE) }
    }

    /// Whether credentials are stored: in the front-end's configuration,
    /// or else in the credentials file.
    pub fn has_credentials(&self, in_bios_config: bool, file_exists: bool) -> (r: bool)
        ensures
            r == (in_bios_config || file_exists),
    {
        in_bios_config || file_exists
    }

    /// The credentials to store after hardcore mode was set; nothing is
    /// stored where there are no credentials.
    pub fn set_hardcore(&self, loaded: Option<Credentials>, hardcore: bool) -> (r: Option<Credentials>)
        ensures
            match loaded {
                Some(c) => r == Some(Credentials { hardcore, ..c }),
                None => r is None,
            },
    {
        match loaded {
            Some(c) => Some(
                Credentials {
                    username: c.username,
                    api_key: c.api_key,
                    token: c.token,
                    hardcore,
                    last_sync: c.last_sync,
                },
            ),
            None => None,
        }
    }

    /// The credentials to store after a token was received at the time
    /// `now`; nothing is stored where there are no credentials.
    pub fn update_token(&self, loaded: Option<Credentials>, token: String, now: String) -> (r: Option<Credentials>)
        ensures
            match loaded {
                Some(c) => r == Some(Credentials { token: Some(token), last_sync: Some(now), ..c }),
                None => r is None,
            },
    {
        match loaded {
            Some(c) => Some(
                Credentials {
                    username: c.username,
                    api_key: c.api_key,
                    token: Some(token),
                    hardcore: c.hardcore,
                    last_sync: Some(now),
                },
            ),
            None => None,
        }
    }

    /// The path of the credentials file.
    pub fn credentials_path(&self) -> (r: &str)
        ensures
            r@ == self.spec_path(),
    {
        self.credentials_path.as_str()
    }
}

} // verus!
