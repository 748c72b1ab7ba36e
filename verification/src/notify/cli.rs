//! The first form of the `notify` command provider.
use vstd::prelude::*;

pub mod notify_cli_provider;

verus! {

} // verus!
