//! Export of in-memory numeric sequences as plot-ready artifacts: a
//! tab-separated data file plus a generated script for the `gnuplot`
//! plotting engine.
//!
//! The library computes every artifact (data tables, header blocks, plot
//! scripts, output paths) as plain strings with verified contracts; the
//! surrounding application performs the actual directory creation, file
//! writes and engine invocation.

pub mod comparison;
pub mod configuration;
pub mod data;
pub mod decimal;
pub mod errors;
pub mod process;
pub mod script;
pub mod sequence;
pub mod traits;

use vstd::prelude::*;

verus! {

/// Directory under which data files are placed, as a sequence of characters.
pub open spec fn data_dir() -> Seq<char> {
    "data"@
}

/// Directory under which plot scripts are placed, as a sequence of characters.
pub open spec fn plot_dir() -> Seq<char> {
    "plots"@
}

} // verus!
