//! Build-time interface extraction for service crates: deciding from a
//! compiler command line whether the extraction pass runs, and where its
//! interface descriptor goes.
use vstd::prelude::*;

pub mod activation;
pub mod args;
pub mod backend;
pub mod output;
pub mod sysroot;

verus! {

} // verus!
