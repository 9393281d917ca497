//! What is fixed when the relay starts: where records are looked up, in
//! whose repository, and the port to listen on.

use vstd::prelude::*;
use vstd::string::*;

verus! {

/// The configuration of a relay.
#[derive(Clone, Debug, PartialEq, Eq)]
pub struct Config {
    /// Base of the record repository's URLs, without a trailing slash.
    pub base_uri: String,
    /// Identifier of the repository that holds the records.
    pub repo: String,
    /// Port on which requests are accepted.
    pub port: u16,
}

/// A configuration as plain values.
pub struct ConfigView {
    pub base_uri: Seq<char>,
    pub repo: Seq<char>,
    pub port: u16,
}

impl View for Config {
    type V = ConfigView;

    open spec fn view(&self) -> ConfigView {
        ConfigView { base_uri: self.base_uri@, repo: self.repo@, port: self.port }
    }
}

/// The configuration that a relay runs with unless told otherwise.
pub open spec fn default_config() -> ConfigView {
    ConfigView {
        base_uri: "https://at.queerlil.tools"@,
        repo: "did:plc:4vrriezpgc4t6y5sf7lcilhv"@,
        port: 9090,
    }
}

impl Default for Config {
    fn default() -> (config: Config)
        ensures
            config@ == default_config(),
    {
        Config {
            base_uri: String::from_str("https://at.queerlil.tools"),
            repo: String::from_str("did:plc:4vrriezpgc4t6y5sf7lcilhv"),
            port: 9090,
        }
    }
}

} // verus!
