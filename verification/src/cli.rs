//! How much the program logs, from the number of `-v` flags it was given.

use vstd::prelude::*;

verus! {

/// The most detailed kind of message that is logged.
#[derive(Clone, Copy, Debug, PartialEq, Eq)]
pub enum Verbosity {
    Warn,
    Info,
    Debug,
    Trace,
}

/// How detailed a verbosity is: warnings only is the least.
pub open spec fn detail(v: Verbosity) -> int {
    match v {
        Verbosity::Warn => 0,
        Verbosity::Info => 1,
        Verbosity::Debug => 2,
        Verbosity::Trace => 3,
    }
}

/// The verbosity for `verbose` flags: none logs warnings, one adds
/// information, two debugging, three or more everything.
pub open spec fn verbosity_for(verbose: u8) -> Verbosity {
    if verbose == 0 {
        Verbosity::Warn
    } else if verbose == 1 {
        Verbosity::Info
    } else if verbose == 2 {
        Verbosity::Debug
    } else {
        Verbosity::Trace
    }
}

/// The verbosity for `verbose` flags, computed.
pub fn log_level(verbose: u8) -> (v: Verbosity)
    ensures
        v == verbosity_for(verbose),
        detail(v) == if verbose < 3 { verbose as int } else { 3 },
{
    match verbose {
        0 => Verbosity::Warn,
        1 => Verbosity::Info,
        2 => Verbosity::Debug,
        _ => Verbosity::Trace,
    }
}

/// More flags never log less.
pub proof fn lemma_more_flags_log_more(a: u8, b: u8)
    requires
        a <= b,
    ensures
        detail(verbosity_for(a)) <= detail(verbosity_for(b)),
{
}

} // verus!
