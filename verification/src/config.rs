//! The engine configuration: the two sink bindings and the flags a run
//! honours, together with the dispatcher that writes a finished report
//! through the configured sinks.

use vstd::prelude::*;

use crate::report::Report;
use crate::report::Role;
use crate::sink::Output;

verus! {

/// What a run needs to know beyond its inputs: where each report role
/// goes, and the flags.  Built once by the caller and passed by value; the
/// engine never mutates it.
#[derive(Clone, Copy, PartialEq, Eq, Structural, Debug)]
pub struct Config {
    /// The sink bound to the stdout role.
    pub stdout: Output,
    /// The sink bound to the stderr role.
    pub stderr: Output,
    /// Quiet mode: suppress success confirmations and the summary.
    pub quiet: bool,
    /// Write entry lines under the final path component only.
    pub print_basename: bool,
    /// Ignore case on filenames.
    pub ignore_case: bool,
    /// Replace backslashes with slashes on filenames.
    pub force_slashes: bool,
}

impl Config {
    /// A fresh configuration: each role bound to its own stream, every
    /// flag off.
    pub fn new() -> (r: Self)
        ensures
            r.stdout == Output::Stdout,
            r.stderr == Output::Stderr,
            !r.quiet,
            !r.print_basename,
            !r.ignore_case,
            !r.force_slashes,
    {
        Config {
            stdout: Output::stdout(),
            stderr: Output::stderr(),
            quiet: false,
            print_basename: false,
            ignore_case: false,
            force_slashes: false,
        }
    }

    /// This configuration with the stdout role rebound.
    pub fn with_stdout(self, stdout: Output) -> (r: Self)
        ensures
            r == (Config { stdout, ..self }),
    {
        Config { stdout, ..self }
    }

    /// This configuration with the stderr role rebound.
    pub fn with_stderr(self, stderr: Output) -> (r: Self)
        ensures
            r == (Config { stderr, ..self }),
    {
        Config { stderr, ..self }
    }

    /// This configuration with the basename flag set as given.
    pub fn with_print_basenamet(self, print_basename: bool) -> (r: Self)
        ensures
            r == (Config { print_basename, ..self }),
    {
        Config { print_basename, ..self }
    }

    /// Consumes the configuration and hands back its stdout-role sink.
    pub fn extract_stdout(self) -> (r: Output)
        ensures
            r == self.stdout,
    {
        self.stdout
    }

    /// Rebinds the stdout role.
    pub fn set_stdout(&mut self, stdout: Output)
        ensures
            *final(self) == (Config { stdout, ..*old(self) }),
    {
        self.stdout = stdout;
    }

    /// Rebinds the stderr role.
    pub fn set_stderr(&mut self, stderr: Output)
        ensures
            *final(self) == (Config { stderr, ..*old(self) }),
    {
        self.stderr = stderr;
    }

    /// Sets quiet mode.
    pub fn set_quiet(&mut self, quiet: bool)
        ensures
            *final(self) == (Config { quiet, ..*old(self) }),
    {
        self.quiet = quiet;
    }

    /// Sets the basename flag.
    pub fn set_print_basename(&mut self, print_basename: bool)
        ensures
            *final(self) == (Config { print_basename, ..*old(self) }),
    {
        self.print_basename = print_basename;
    }
}

impl Default for Config {
    /// The default configuration equals [`Config::new`].
    fn default() -> (r: Self)
        ensures
            r.stdout == Output::Stdout,
            r.stderr == Output::Stderr,
            !r.quiet,
            !r.print_basename,
            !r.ignore_case,
            !r.force_slashes,
    {
        Config::new()
    }
}

/// Writes a report's lines, in order, through the sinks the configuration
/// binds to the two roles.  Stops at the first failed write and reports
/// failure; a run whose both roles discard cannot fail.
pub fn emit_report(config: &Config, report: &Report) -> (ok: bool)
    ensures
        config.stdout is Devnull && config.stderr is Devnull ==> ok,
{
    let n = report.events.len();
    let mut i: usize = 0;
    while i < n
        invariant
            i <= n,
            n == report.events@.len(),
        decreases n - i,
    {
        let ev = &report.events[i];
        let written = match ev.role {
            Role::Stdout => config.stdout.write_line(ev.line.as_str()),
            Role::Stderr => config.stderr.write_line(ev.line.as_str()),
        };
        if !written {
            return false;
        }
        i = i + 1;
    }
    true
}

} // verus!
