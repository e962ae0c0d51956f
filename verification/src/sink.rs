//! Output sinks: where report lines go.
//!
//! A sink is one of three destinations: discard, the process's standard
//! output, or its standard error.  Exactly one sink is bound to each of
//! the two report roles at any time, which is how quiet mode and stream
//! redirection are done without touching the engine.  Writing through a
//! sink is the one place where the crate touches the real streams.

use vstd::prelude::*;

use std::io::Write;

verus! {

/// A destination for report lines.
#[derive(Clone, Copy, PartialEq, Eq, Structural, Debug)]
pub enum Output {
    /// Discard everything written.
    Devnull,
    /// The process's standard output.
    Stdout,
    /// The process's standard error.
    Stderr,
}

/// Relies on the `writeln` macro over `std::io::Stdout`: writes the line
/// and a newline to standard output.
#[verifier::external_body]
fn write_stdout_line(line: &str) -> (ok: bool) {
    writeln!(std::io::stdout(), "{}", line).is_ok()
}

/// Relies on the `writeln` macro over `std::io::Stderr`: writes the line
/// and a newline to standard error.
#[verifier::external_body]
fn write_stderr_line(line: &str) -> (ok: bool) {
    writeln!(std::io::stderr(), "{}", line).is_ok()
}

impl Output {
    /// The sink that discards everything.
    pub fn devnull() -> (r: Self)
        ensures
            r == Output::Devnull,
    {
        Output::Devnull
    }

    /// The sink bound to the process's standard output.
    pub fn stdout() -> (r: Self)
        ensures
            r == Output::Stdout,
    {
        Output::Stdout
    }

    /// The sink bound to the process's standard error.
    pub fn stderr() -> (r: Self)
        ensures
            r == Output::Stderr,
    {
        Output::Stderr
    }

    /// Writes one line, newline-terminated, to this sink; reports whether
    /// the write succeeded.  Discarding never fails.
    pub fn write_line(&self, line: &str) -> (ok: bool)
        ensures
            *self is Devnull ==> ok,
    {
        match self {
            Output::Devnull => true,
            Output::Stdout => write_stdout_line(line),
            Output::Stderr => write_stderr_line(line),
        }
    }
}

impl Default for Output {
    /// The default sink is standard error.
    fn default() -> (r: Self)
        ensures
            r == Output::Stderr,
    {
        Output::Stderr
    }
}

} // verus!
