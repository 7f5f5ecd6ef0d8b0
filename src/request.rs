use crate::discovery::DiscoveryMode;
use vstd::prelude::*;

verus! {

/// The parameters of one identity creation.
#[derive(Clone, Debug, PartialEq, Eq)]
pub struct CreateIdentityQuery {
    pub username: String,
    pub passphrase: String,
    pub seed_words: String,
}

/// The command-line options of the service.
#[derive(Clone, Debug, PartialEq)]
pub struct Args {
    /// The directory under which the account data lives.
    pub path: Option<String>,
    pub discovery: Option<DiscoveryMode>,
    pub enable_quic: bool,
    pub discovery_point: Option<String>,
    pub with_mock: bool,
    /// Whether the service was installed rather than built locally.
    pub production_mode: bool,
    /// Whether logs go to a file.
    pub log_to_file: bool,
}

impl Args {
    /// The discovery mode to run with: the one given, else the default.
    pub fn discovery_mode(&self) -> (r: DiscoveryMode)
        ensures
            r == match self.discovery {
                Some(m) => m,
                None => DiscoveryMode::Shuttle,
            },
    {
        match &self.discovery {
            Some(m) => m.duplicate(),
            None => DiscoveryMode::default(),
        }
    }
}

} // verus!
