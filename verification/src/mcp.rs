//! The protocol server.  It starts and says so; the protocol itself is not
//! served yet.

use crate::assets::AssetManager;
use crate::config::Config;
use crate::error::Error;
use vstd::prelude::*;

verus! {

/// What the server says when it starts, for a runtime at `java`.
pub open spec fn startup_lines(java: Seq<char>) -> Seq<char> {
    "MCP Server starting with Java: "@ + java + "\nMCP functionality will be implemented\n"@
}

/// The protocol server.
#[derive(Clone, Debug, PartialEq, Eq)]
pub struct Server {
    config: Config,
    asset_manager: AssetManager,
}

impl Server {
    /// The configuration the server runs with.
    pub closed spec fn config(&self) -> Config {
        self.config
    }

    /// The cache the server takes its tools from.
    pub closed spec fn assets(&self) -> AssetManager {
        self.asset_manager
    }

    /// A server for a run configured by `config`, with its tools in the
    /// cache of `asset_manager`.  Nothing can fail yet.
    pub fn new(config: Config, asset_manager: AssetManager) -> (r: Result<Server, Error>)
        ensures
            r matches Ok(server) && server.config() == config && server.assets() == asset_manager,
    {
        Ok(Server { config, asset_manager })
    }

    /// What the server writes to the standard output when it starts.
    pub fn startup_text(&self) -> (r: String)
        ensures
            r@ == startup_lines(self.config().java.java_path@),
    {
        let mut text = "MCP Server starting with Java: ".to_owned();
        text.append(self.config.java.java_path.as_str());
        text.append("\nMCP functionality will be implemented\n");
        text
    }
}

} // verus!
