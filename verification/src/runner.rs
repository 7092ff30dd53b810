//! Configuration of an external command that runs beside a build.

use vstd::prelude::*;

verus! {

/// A command and the arguments it is started with.
#[derive(Clone, Debug)]
pub struct Runner {
    pub command: String,
    pub args: Vec<String>,
}

} // verus!
