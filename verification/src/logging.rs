//! The log filter that the command line asks for.

use vstd::prelude::*;

verus! {

/// The filter for a verbosity: how often "verbose" was asked for, less how
/// often "quiet" was. Below -1 only errors are logged, above 2 everything.
pub open spec fn filter_of(verbosity: int) -> Seq<char> {
    if verbosity <= -2 {
        "error"@
    } else if verbosity == -1 {
        "warn, actix_web::middleware::logger = info"@
    } else if verbosity == 0 {
        "info, actix_server::accept = warn, actix_server::builder = warn"@
    } else if verbosity == 1 {
        "debug, actix_server::accept = warn, html5ever = info"@
    } else if verbosity == 2 {
        "trace, actix_web::middleware::logger = debug, rustls = debug, actix_server::accept = warn, html5ever = info"@
    } else {
        "trace"@
    }
}

/// The log filter to start with, unless the environment names one.
pub fn log_filter(verbose: i32, quiet: i32) -> (filter: &'static str)
    ensures
        filter@ == filter_of(verbose - quiet),
{
    let verbosity: i64 = verbose as i64 - quiet as i64;
    if verbosity <= -2 {
        "error"
    } else if verbosity == -1 {
        "warn, actix_web::middleware::logger = info"
    } else if verbosity == 0 {
        "info, actix_server::accept = warn, actix_server::builder = warn"
    } else if verbosity == 1 {
        "debug, actix_server::accept = warn, html5ever = info"
    } else if verbosity == 2 {
        "trace, actix_web::middleware::logger = debug, rustls = debug, actix_server::accept = warn, html5ever = info"
    } else {
        "trace"
    }
}

} // verus!
