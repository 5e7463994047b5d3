//! The configuration, built once at startup and read everywhere else.

use vstd::prelude::*;

verus! {

/// The cap on an upload's size where none is configured: 35 MiB.
pub const DEFAULT_MAX_UPLOAD: u64 = 36700160;

/// The storage root where none is configured.
pub open spec fn default_root() -> Seq<char> {
    "/home/services/cdn/uploads"@
}

/// The bearer token where none is configured.
pub open spec fn default_token() -> Seq<char> {
    "aaa"@
}

/// Storage root, size cap and bearer token.
#[derive(Clone, Debug, PartialEq, Eq)]
pub struct Config {
    /// The directory beneath which every object lives, without a trailing separator.
    pub root: String,
    /// The largest accepted upload, in bytes.
    pub max_upload: u64,
    /// The secret that an upload must present.
    pub token: String,
}

/// The mathematical value of a [`Config`].
pub struct ConfigView {
    pub root: Seq<char>,
    pub max_upload: u64,
    pub token: Seq<char>,
}

impl View for Config {
    type V = ConfigView;

    open spec fn view(&self) -> ConfigView {
        ConfigView { root: self.root@, max_upload: self.max_upload, token: self.token@ }
    }
}

/// The configuration that [`Config::from_settings`] builds.
pub open spec fn settings_view(
    root: Option<Seq<char>>,
    max_upload: Option<u64>,
    token: Option<Seq<char>>,
) -> ConfigView {
    ConfigView {
        root: match root {
            Some(r) => r,
            None => default_root(),
        },
        max_upload: match max_upload {
            Some(m) => m,
            None => DEFAULT_MAX_UPLOAD,
        },
        token: match token {
            Some(t) => t,
            None => default_token(),
        },
    }
}

/// The view of an optional string.
pub open spec fn text_of(s: Option<String>) -> Option<Seq<char>> {
    match s {
        Some(t) => Some(t@),
        None => None,
    }
}

impl Config {
    /// A configuration from settings that may be unset; each unset one takes
    /// its fixed default.
    pub fn from_settings(root: Option<String>, max_upload: Option<u64>, token: Option<String>) -> (cfg:
        Config)
        ensures
            cfg@ == settings_view(text_of(root), max_upload, text_of(token)),
    {
        let root = match root {
            Some(r) => r,
            None => String::from_str("/home/services/cdn/uploads"),
        };
        let max_upload = match max_upload {
            Some(m) => m,
            None => DEFAULT_MAX_UPLOAD,
        };
        let token = match token {
            Some(t) => t,
            None => String::from_str("aaa"),
        };
        Config { root, max_upload, token }
    }
}

/// The value of the `safe` option where the request does not set it.
pub fn default_false() -> (safe: bool)
    ensures
        !safe,
{
    false
}

} // verus!
