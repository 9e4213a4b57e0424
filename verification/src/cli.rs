//! The commands of the program, as they stand once the command line has been
//! parsed.

use vstd::prelude::*;

verus! {

/// What the program was asked to do.
#[derive(Clone, Debug, PartialEq, Eq)]
pub enum Commands {
    /// Unpack an archive to resources and sources.
    Unpack {
        /// The archive to unpack.
        apk_file: String,
    },
    /// Pack a directory of decoded resources into an archive.
    Pack {
        /// The directory to pack.
        unpacked_dir: String,
        /// The archive to build.
        output_apk: String,
    },
    /// Serve the tools over the Model Context Protocol.
    Mcp,
}

/// A parsed command line.
#[derive(Clone, Debug, PartialEq, Eq)]
pub struct Cli {
    pub command: Commands,
}

} // verus!
