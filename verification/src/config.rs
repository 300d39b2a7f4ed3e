//! Oracle configuration: the owning identity and the retention window.

use vstd::prelude::*;

verus! {

/// The message that creates a configuration.
pub struct InstantiateMsg {
    /// The identity allowed to manage the oracle.
    pub owner: String,
    /// Retention window in seconds: entries older than the head by more than
    /// this may be pruned.
    pub max_age: u64,
}

/// The oracle configuration.
pub struct Config {
    /// The identity allowed to manage the oracle.
    pub owner: String,
    /// Retention window in seconds.
    pub max_age: u64,
}

impl From<InstantiateMsg> for Config {
    fn from(msg: InstantiateMsg) -> (r: Config) {
        Config { owner: msg.owner, max_age: msg.max_age }
    }
}

impl vstd::std_specs::convert::FromSpecImpl<InstantiateMsg> for Config {
    open spec fn obeys_from_spec() -> bool {
        true
    }

    open spec fn from_spec(msg: InstantiateMsg) -> Config {
        Config { owner: msg.owner, max_age: msg.max_age }
    }
}

} // verus!
