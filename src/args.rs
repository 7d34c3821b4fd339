//! The commands the tool offers.
use vstd::prelude::*;

verus! {

/// The tool as a `cargo` subcommand.
#[derive(Debug)]
pub enum CargoXtestData {
    /// A subcommand to interact with the test data setup and cargo.
    XtestData { cmd: XtaskCommand },
}

/// The operations of the tool.
#[derive(Debug)]
pub enum XtaskCommand {
    /// Pack the repository, pack its test data, unpack both into a clean
    /// location and run the tests there.
    Test {
        /// The path to the source repository.
        path: String,
        /// Whether a working copy with changes is accepted.
        allow_dirty: bool,
    },
    /// Fetch the data archives of a published package and run its tests.
    TestCrate {
        /// A package archive, or an unpacked one.
        path: String,
        /// A downloaded pack artifact to use instead.
        pack_artifact: Option<String>,
    },
    /// Pack the test data only.
    Pack {
        /// The path to the source repository.
        path: String,
        /// Whether a working copy with changes is accepted.
        allow_dirty: bool,
    },
    /// Fetch and prepare the artifacts of a package, printing shell variable
    /// assignments.
    Fetch {
        /// The path to the package archive.
        path: String,
        /// A downloaded pack artifact to use instead.
        pack_artifact: Option<String>,
        /// Where to write; chosen from the package otherwise.
        output: Option<String>,
    },
}

} // verus!
