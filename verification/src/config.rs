//! Where the API is and how to log in to it.

use vstd::prelude::*;

verus! {

/// The address that a fresh configuration points to.
pub const DEFAULT_URL: &'static str = "https://gitlab.com";

/// The token of a fresh configuration. It stands for a token that the user
/// has yet to fill in, and gives access to nothing.
pub const DEFAULT_TOKEN: &'static str = "Your token here";

/// The base URL of a GitLab instance and an access token for its API.
#[derive(Debug, Clone)]
pub struct GitlabConfig {
    pub url: String,
    pub token: String,
}

/// The configuration of the program.
#[derive(Debug, Clone)]
pub struct Config {
    pub gitlab: GitlabConfig,
}

impl Config {
    /// Whether the user has yet to fill in a token.
    pub open spec fn token_is_unset(&self) -> bool {
        self.gitlab.token@ == DEFAULT_TOKEN@
    }

    /// Whether the user has yet to fill in a token.
    pub fn has_default_token(&self) -> (unset: bool)
        ensures
            unset == self.token_is_unset(),
    {
        let fresh = DEFAULT_TOKEN.to_owned();
        self.gitlab.token == fresh
    }
}

impl Default for Config {
    /// A fresh configuration: the public GitLab instance, and no token yet.
    fn default() -> (config: Config)
        ensures
            config.gitlab.url@ == DEFAULT_URL@,
            config.gitlab.token@ == DEFAULT_TOKEN@,
            config.token_is_unset(),
    {
        Config {
            gitlab: GitlabConfig { url: DEFAULT_URL.to_owned(), token: DEFAULT_TOKEN.to_owned() },
        }
    }
}

} // verus!
