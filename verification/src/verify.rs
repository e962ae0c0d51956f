//! The listing verifier: classification of per-entry outcomes and assembly
//! of the verification report.
//!
//! A run over one listing produces, in order: a banner on the stderr role;
//! one result line per checked entry on the stdout role (successes stay
//! silent in quiet mode); a separator on the stderr role; and, outside
//! quiet mode, a summary line on the stdout role.  A listing that cannot be
//! opened produces only the banner and an error line, and fails.
//!
//! The contracts pin every line character by character and state that the
//! aggregate result is true exactly when every entry matched.

use vstd::prelude::*;
use vstd::string::StrSliceExecFns;
use vstd::string::StringExecFns;

use crate::checksum::crc32_of;
use crate::listing::lemma_entry_line_round_trip;
use crate::listing::line_crc;
use crate::listing::spec_entry_line;
use crate::report::events_view;
use crate::report::lemma_events_view_push;
use crate::report::Event;
use crate::report::Report;
use crate::report::Role;
use crate::textfmt::push_repeat;
use crate::textfmt::spec_repeat;
use crate::textfmt::spec_right_pad;

verus! {

/// One entry of a listing together with what checking it yielded: the
/// recorded and recomputed checksums, a failure to read the file, or a
/// line that could not be parsed as an entry.
#[derive(Debug)]
pub enum EntryCheck {
    /// The file could be read: `recorded` is the checksum the listing
    /// holds, `computed` the one just computed.
    Crc { name: String, recorded: u32, computed: u32 },
    /// The file could not be read; `message` is the error text.
    Failed { name: String, message: String },
    /// The listing line could not be parsed as an entry.
    Malformed { line: String },
}

/// The outcome of checking one listing entry.
#[derive(Debug)]
pub enum Outcome {
    /// The recomputed checksum equals the recorded one.
    Match,
    /// The recomputed checksum differs from the recorded one.
    Mismatch { recorded: u32, computed: u32 },
    /// The file could not be read.
    IoFailure { message: String },
    /// The listing line was not a well-formed entry.
    MalformedEntry,
}

/// The outcome that checking `c` yields.
pub open spec fn outcome_of(c: EntryCheck) -> Outcome {
    match c {
        EntryCheck::Crc { name: _, recorded, computed } => {
            if recorded == computed {
                Outcome::Match
            } else {
                Outcome::Mismatch { recorded, computed }
            }
        },
        EntryCheck::Failed { name: _, message } => Outcome::IoFailure { message },
        EntryCheck::Malformed { line: _ } => Outcome::MalformedEntry,
    }
}

/// The name a check is reported under: the entry's path, or the raw line
/// for a malformed entry.
pub open spec fn check_name(c: EntryCheck) -> Seq<char> {
    match c {
        EntryCheck::Crc { name, recorded: _, computed: _ } => name@,
        EntryCheck::Failed { name, message: _ } => name@,
        EntryCheck::Malformed { line } => line@,
    }
}

/// Whether the check counts as a success.
pub open spec fn check_ok(c: EntryCheck) -> bool {
    outcome_of(c) is Match
}

/// Whether every check succeeded.
pub open spec fn checks_all_ok(cs: Seq<EntryCheck>) -> bool {
    forall|i: int| 0 <= i < cs.len() ==> check_ok(#[trigger] cs[i])
}

/// Classifies one checked entry.
pub fn classify(c: &EntryCheck) -> (o: Outcome)
    ensures
        o == outcome_of(*c),
{
    match c {
        EntryCheck::Crc { name: _, recorded, computed } => {
            if *recorded == *computed {
                Outcome::Match
            } else {
                Outcome::Mismatch { recorded: *recorded, computed: *computed }
            }
        },
        EntryCheck::Failed { name: _, message } => Outcome::IoFailure { message: message.clone() },
        EntryCheck::Malformed { line: _ } => Outcome::MalformedEntry,
    }
}

/// The report line for a malformed entry carries this text.
pub open spec fn malformed_text() -> Seq<char> {
    "Malformed entry"@
}

/// The stdout-role line(s) that one check produces.  A match is one `OK`
/// line, or nothing in quiet mode; every problem is exactly one line,
/// quiet or not.
pub open spec fn check_lines(c: EntryCheck, quiet: bool) -> Seq<(Role, Seq<char>)> {
    let name = check_name(c);
    match outcome_of(c) {
        Outcome::Match => {
            if quiet {
                Seq::empty()
            } else {
                seq![(Role::Stdout, spec_right_pad(name, 50) + "OK"@)]
            }
        },
        Outcome::Mismatch { recorded: _, computed: _ } => {
            if quiet {
                seq![(Role::Stdout, spec_right_pad(name, 50) + "different CRC"@)]
            } else {
                seq![(Role::Stdout, "cksfv: "@ + name + ": Has a different CRC"@)]
            }
        },
        Outcome::IoFailure { message } => {
            if quiet {
                seq![(Role::Stdout, "cksfv: "@ + name + ": "@ + message@)]
            } else {
                seq![(Role::Stdout, spec_right_pad(name, 50) + message@)]
            }
        },
        Outcome::MalformedEntry => {
            if quiet {
                seq![(Role::Stdout, "cksfv: "@ + name + ": "@ + malformed_text())]
            } else {
                seq![(Role::Stdout, spec_right_pad(name, 50) + malformed_text())]
            }
        },
    }
}

/// The number of filler dashes in the banner: the listing path is deducted
/// from a constant budget of 63 columns, clamping at zero.
pub open spec fn banner_fill(n: nat) -> nat {
    if n > 63 {
        0
    } else {
        (63 - n) as nat
    }
}

/// The banner announcing which listing is being verified, filled with
/// dashes up to 80 columns for paths up to the budget.
pub open spec fn spec_banner(path: Seq<char>) -> Seq<char> {
    "--( Verifying: "@ + path + " )"@ + spec_repeat('-', banner_fill(path.len()))
}

/// The separator line: 80 dashes.
pub open spec fn spec_separator() -> Seq<char> {
    spec_repeat('-', 80)
}

/// The summary line for an aggregate result.
pub open spec fn spec_summary(ok: bool) -> Seq<char> {
    if ok {
        "Everything OK"@
    } else {
        "Errors Occured"@
    }
}

/// The error line reporting that `name` failed with `message`.
pub open spec fn spec_error_line(name: Seq<char>, message: Seq<char>) -> Seq<char> {
    "cksfv: "@ + name + ": "@ + message
}

/// The stdout-role lines of all checks, in order.
pub open spec fn entries_events(cs: Seq<EntryCheck>, quiet: bool) -> Seq<(Role, Seq<char>)>
    decreases cs.len(),
{
    if cs.len() == 0 {
        Seq::empty()
    } else {
        entries_events(cs.drop_last(), quiet) + check_lines(cs.last(), quiet)
    }
}

/// Everything a verification run over an opened listing produces.
pub open spec fn spec_verify_events(listing: Seq<char>, cs: Seq<EntryCheck>, quiet: bool) -> Seq<
    (Role, Seq<char>),
> {
    seq![(Role::Stderr, spec_banner(listing))] + entries_events(cs, quiet) + seq![
        (Role::Stderr, spec_separator()),
    ] + if quiet {
        Seq::<(Role, Seq<char>)>::empty()
    } else {
        seq![(Role::Stdout, spec_summary(checks_all_ok(cs)))]
    }
}

/// Everything a verification run whose listing could not be opened
/// produces: the banner and one error line, nothing more.
pub open spec fn spec_open_failure_events(listing: Seq<char>, message: Seq<char>) -> Seq<
    (Role, Seq<char>),
> {
    seq![(Role::Stderr, spec_banner(listing)), (Role::Stderr, spec_error_line(listing, message))]
}

/// The progress line recursive mode emits when it turns to a directory.
pub open spec fn spec_entering_line(dir: Seq<char>) -> Seq<char> {
    "Entering directory: "@ + dir
}

/// Builds the progress line announcing the directory being entered.
pub fn entering_line(dir: &str) -> (r: String)
    ensures
        r@ == spec_entering_line(dir@),
{
    let mut r = "Entering directory: ".to_owned();
    r.append(dir);
    r
}

/// Builds the banner line for `path`.
fn banner_line(path: &str) -> (r: String)
    ensures
        r@ == spec_banner(path@),
{
    let mut r = "--( Verifying: ".to_owned();
    r.append(path);
    r.append(" )");
    let n = path.unicode_len();
    let fill: usize = if n > 63 {
        0
    } else {
        63 - n
    };
    push_repeat(&mut r, '-', fill);
    proof {
        assert(r@ =~= spec_banner(path@));
    }
    r
}

/// Builds the error line `cksfv: <name>: <message>`.
fn error_line(name: &str, message: &str) -> (r: String)
    ensures
        r@ == spec_error_line(name@, message@),
{
    let mut r = "cksfv: ".to_owned();
    r.append(name);
    r.append(": ");
    r.append(message);
    proof {
        assert(r@ =~= spec_error_line(name@, message@));
    }
    r
}

/// Builds `name` right-padded with spaces to 50 columns, followed by
/// `rest`.
fn padded_line(name: &str, rest: &str) -> (r: String)
    ensures
        r@ == spec_right_pad(name@, 50) + rest@,
{
    let mut r = name.to_owned();
    let n = name.unicode_len();
    if n < 50 {
        push_repeat(&mut r, ' ', 50 - n);
    }
    r.append(rest);
    proof {
        assert(r@ =~= spec_right_pad(name@, 50) + rest@);
    }
    r
}

/// Builds the stdout-role line for one check, or nothing for a quiet
/// match.
fn check_event(c: &EntryCheck, quiet: bool) -> (r: Option<Event>)
    ensures
        r matches Some(e) ==> check_lines(*c, quiet) == seq![e@],
        r is None ==> check_lines(*c, quiet) == Seq::<(Role, Seq<char>)>::empty(),
{
    match c {
        EntryCheck::Crc { name, recorded, computed } => {
            if *recorded == *computed {
                if quiet {
                    None
                } else {
                    Some(Event { role: Role::Stdout, line: padded_line(name.as_str(), "OK") })
                }
            } else {
                if quiet {
                    Some(
                        Event {
                            role: Role::Stdout,
                            line: padded_line(name.as_str(), "different CRC"),
                        },
                    )
                } else {
                    let mut line = "cksfv: ".to_owned();
                    line.append(name.as_str());
                    line.append(": Has a different CRC");
                    proof {
                        assert(line@ =~= "cksfv: "@ + name@ + ": Has a different CRC"@);
                    }
                    Some(Event { role: Role::Stdout, line })
                }
            }
        },
        EntryCheck::Failed { name, message } => {
            if quiet {
                Some(Event { role: Role::Stdout, line: error_line(name.as_str(), message.as_str()) })
            } else {
                Some(
                    Event { role: Role::Stdout, line: padded_line(name.as_str(), message.as_str()) },
                )
            }
        },
        EntryCheck::Malformed { line } => {
            if quiet {
                Some(Event { role: Role::Stdout, line: error_line(line.as_str(), "Malformed entry") })
            } else {
                Some(Event { role: Role::Stdout, line: padded_line(line.as_str(), "Malformed entry") })
            }
        },
    }
}

/// Assembles the report of a verification run over an opened listing:
/// the banner, one result line per check (quiet matches stay silent), the
/// separator, and outside quiet mode the summary.  The run succeeds
/// exactly when every check matched.
pub fn verify_report(listing_path: &str, checks: Vec<EntryCheck>, quiet: bool) -> (r: Report)
    ensures
        r.success == checks_all_ok(checks@),
        events_view(r.events@) == spec_verify_events(listing_path@, checks@, quiet),
{
    let mut events: Vec<Event> = Vec::new();
    events.push(Event { role: Role::Stderr, line: banner_line(listing_path) });
    let mut ok = true;
    let n = checks.len();
    let mut i: usize = 0;
    while i < n
        invariant
            i <= n,
            n == checks@.len(),
            ok == checks_all_ok(checks@.take(i as int)),
            events_view(events@) =~~= seq![(Role::Stderr, spec_banner(listing_path@))]
                + entries_events(checks@.take(i as int), quiet),
        decreases n - i,
    {
        let c = &checks[i];
        proof {
            assert(checks@.take(i + 1).drop_last() =~= checks@.take(i as int));
            assert(checks@.take(i + 1).last() == checks@[i as int]);
        }
        let ghost pre = events@;
        match check_event(c, quiet) {
            Some(e) => {
                events.push(e);
                proof {
                    lemma_events_view_push(pre, e);
                    assert(events_view(events@) =~~= events_view(pre) + check_lines(
                        checks@[i as int],
                        quiet,
                    ));
                }
            },
            None => {},
        }
        let matched = match classify(c) {
            Outcome::Match => true,
            _ => false,
        };
        if !matched {
            ok = false;
        }
        proof {
            if ok {
                assert(checks_all_ok(checks@.take(i + 1)));
            } else {
                if matched {
                    let w = choose|j: int| 0 <= j < i && !check_ok(checks@.take(i as int)[j]);
                    assert(!check_ok(checks@.take(i + 1)[w]));
                } else {
                    assert(!check_ok(checks@.take(i + 1)[i as int]));
                }
                assert(!checks_all_ok(checks@.take(i + 1)));
            }
            assert(entries_events(checks@.take(i + 1), quiet) == entries_events(
                checks@.take(i as int),
                quiet,
            ) + check_lines(checks@[i as int], quiet));
            assert(events_view(events@) =~~= seq![(Role::Stderr, spec_banner(listing_path@))]
                + entries_events(checks@.take(i + 1), quiet));
        }
        i = i + 1;
    }
    proof {
        assert(checks@.take(n as int) =~= checks@);
    }
    let mut sep = String::new();
    push_repeat(&mut sep, '-', 80);
    events.push(Event { role: Role::Stderr, line: sep });
    if !quiet {
        let summary = if ok {
            "Everything OK".to_owned()
        } else {
            "Errors Occured".to_owned()
        };
        events.push(Event { role: Role::Stdout, line: summary });
    }
    proof {
        assert(events_view(events@) =~~= spec_verify_events(listing_path@, checks@, quiet));
    }
    Report { events, success: ok }
}

/// A run in which every entry matched produces no entry lines in quiet
/// mode.
proof fn lemma_entries_events_all_ok_quiet(cs: Seq<EntryCheck>)
    requires
        checks_all_ok(cs),
    ensures
        entries_events(cs, true) == Seq::<(Role, Seq<char>)>::empty(),
    decreases cs.len(),
{
    if cs.len() > 0 {
        assert(check_ok(cs.last()));
        assert(checks_all_ok(cs.drop_last()));
        lemma_entries_events_all_ok_quiet(cs.drop_last());
        assert(entries_events(cs, true) =~= Seq::<(Role, Seq<char>)>::empty());
    }
}

/// In quiet mode, a run in which every entry matched writes nothing at all
/// to the stdout role: its whole output is the banner and the separator,
/// both on the stderr role.
pub proof fn lemma_quiet_success_silent(listing: Seq<char>, cs: Seq<EntryCheck>)
    requires
        checks_all_ok(cs),
    ensures
        spec_verify_events(listing, cs, true) == seq![
            (Role::Stderr, spec_banner(listing)),
            (Role::Stderr, spec_separator()),
        ],
        forall|j: int|
            0 <= j < spec_verify_events(listing, cs, true).len() ==> spec_verify_events(
                listing,
                cs,
                true,
            )[j].0 == Role::Stderr,
{
    lemma_entries_events_all_ok_quiet(cs);
    assert(spec_verify_events(listing, cs, true) =~~= seq![
        (Role::Stderr, spec_banner(listing)),
        (Role::Stderr, spec_separator()),
    ]);
}

/// Outside quiet mode every entry is reported: the run's entry lines are
/// exactly one line per check, matched or not, in the checks' order.
pub proof fn lemma_every_entry_reported(cs: Seq<EntryCheck>)
    ensures
        entries_events(cs, false).len() == cs.len(),
        forall|i: int|
            0 <= i < cs.len() ==> entries_events(cs, false)[i] == check_lines(
                #[trigger] cs[i],
                false,
            )[0],
    decreases cs.len(),
{
    if cs.len() > 0 {
        lemma_every_entry_reported(cs.drop_last());
        assert(check_lines(cs.last(), false).len() == 1);
        assert forall|i: int| 0 <= i < cs.len() implies entries_events(cs, false)[i]
            == check_lines(#[trigger] cs[i], false)[0] by {
            if i < cs.len() - 1 {
                assert(cs.drop_last()[i] == cs[i]);
                assert(entries_events(cs, false)[i] == entries_events(cs.drop_last(), false)[i]);
            } else {
                assert(entries_events(cs, false)[i] == check_lines(cs.last(), false)[0]);
            }
        }
    }
}

/// A check that did not match produces exactly one line, on the stdout
/// role, quiet or not.
proof fn lemma_problem_line_shape(c: EntryCheck, quiet: bool)
    requires
        !check_ok(c),
    ensures
        check_lines(c, quiet).len() == 1,
        check_lines(c, quiet)[0].0 == Role::Stdout,
{
}

/// The line of a failing check stands in the entry lines of every run that
/// includes the check.
proof fn lemma_entries_events_contains(cs: Seq<EntryCheck>, quiet: bool, i: int)
    requires
        0 <= i < cs.len(),
        !check_ok(cs[i]),
    ensures
        entries_events(cs, quiet).contains(check_lines(cs[i], quiet)[0]),
    decreases cs.len(),
{
    lemma_problem_line_shape(cs[i], quiet);
    if i == cs.len() - 1 {
        let pre = entries_events(cs.drop_last(), quiet);
        assert(entries_events(cs, quiet)[pre.len() as int] == check_lines(cs[i], quiet)[0]);
    } else {
        assert(cs.drop_last()[i] == cs[i]);
        lemma_entries_events_contains(cs.drop_last(), quiet, i);
        let j = choose|j: int|
            0 <= j < entries_events(cs.drop_last(), quiet).len() && entries_events(
                cs.drop_last(),
                quiet,
            )[j] == check_lines(cs[i], quiet)[0];
        assert(entries_events(cs, quiet)[j] == check_lines(cs[i], quiet)[0]);
    }
}

/// Every entry that did not match is reported: its line stands in the
/// run's output, in quiet mode and outside it, whatever the other entries
/// did.  In particular a failing entry never stops the entries after it
/// from being checked and reported.
pub proof fn lemma_problem_reported(listing: Seq<char>, cs: Seq<EntryCheck>, quiet: bool, i: int)
    requires
        0 <= i < cs.len(),
        !check_ok(cs[i]),
    ensures
        check_lines(cs[i], quiet).len() == 1,
        check_lines(cs[i], quiet)[0].0 == Role::Stdout,
        spec_verify_events(listing, cs, quiet).contains(check_lines(cs[i], quiet)[0]),
{
    lemma_problem_line_shape(cs[i], quiet);
    lemma_entries_events_contains(cs, quiet, i);
    let j = choose|j: int|
        0 <= j < entries_events(cs, quiet).len() && entries_events(cs, quiet)[j] == check_lines(
            cs[i],
            quiet,
        )[0];
    assert(spec_verify_events(listing, cs, quiet)[1 + j] == check_lines(cs[i], quiet)[0]);
}

/// Every element of the quiet entry lines is the line of some failing
/// check.
proof fn lemma_entries_events_quiet_sources(cs: Seq<EntryCheck>, j: int)
    requires
        0 <= j < entries_events(cs, true).len(),
    ensures
        exists|i: int|
            0 <= i < cs.len() && !check_ok(#[trigger] cs[i]) && entries_events(cs, true)[j]
                == check_lines(cs[i], true)[0],
    decreases cs.len(),
{
    if cs.len() > 0 {
        let pre = entries_events(cs.drop_last(), true);
        if j < pre.len() {
            lemma_entries_events_quiet_sources(cs.drop_last(), j);
            let i = choose|i: int|
                0 <= i < cs.drop_last().len() && !check_ok(#[trigger] cs.drop_last()[i])
                    && entries_events(cs.drop_last(), true)[j] == check_lines(
                    cs.drop_last()[i],
                    true,
                )[0];
            assert(cs[i] == cs.drop_last()[i]);
            assert(entries_events(cs, true)[j] == pre[j]);
        } else {
            assert(check_lines(cs.last(), true).len() > 0);
            assert(!check_ok(cs.last()));
            lemma_problem_line_shape(cs.last(), true);
            assert(entries_events(cs, true)[j] == check_lines(cs.last(), true)[0]);
            assert(cs[cs.len() - 1] == cs.last());
        }
    }
}

/// Quiet mode reports problems and nothing else: every line a quiet run
/// writes to the stdout role is the mismatch or error line of some failing
/// entry; success confirmations and the summary are suppressed.
pub proof fn lemma_quiet_reports_only_problems(listing: Seq<char>, cs: Seq<EntryCheck>, j: int)
    requires
        0 <= j < spec_verify_events(listing, cs, true).len(),
        spec_verify_events(listing, cs, true)[j].0 == Role::Stdout,
    ensures
        exists|i: int|
            0 <= i < cs.len() && !check_ok(#[trigger] cs[i]) && spec_verify_events(
                listing,
                cs,
                true,
            )[j] == check_lines(cs[i], true)[0],
{
    let ev = spec_verify_events(listing, cs, true);
    let mid = entries_events(cs, true);
    assert(ev.len() == 2 + mid.len());
    if j == 0 || j == ev.len() - 1 {
        assert(ev[j].0 == Role::Stderr);
    } else {
        assert(ev[j] == mid[j - 1]);
        lemma_entries_events_quiet_sources(cs, j - 1);
    }
}

/// Generating and re-checking round-trips: an entry generated for a file,
/// parsed back out of the listing, and checked against the unchanged byte
/// content passes.  (The generated line parses back to the name and
/// checksum it was built from; see the listing module for that half.)
pub proof fn lemma_generated_entry_passes(name: Seq<char>, content: Seq<u8>, c: EntryCheck)
    requires
        !(name.len() > 0 && name[0] == ';'),
        c matches EntryCheck::Crc { name: _, recorded, computed }
            && recorded == line_crc(spec_entry_line(name, crc32_of(content)))
            && computed == crc32_of(content),
    ensures
        check_ok(c),
{
    lemma_entry_line_round_trip(name, crc32_of(content));
}

/// Assembles the report of a verification run whose listing could not be
/// opened: the banner and one error line, and the run fails.
pub fn open_failure_report(listing_path: &str, message: &str) -> (r: Report)
    ensures
        !r.success,
        events_view(r.events@) == spec_open_failure_events(listing_path@, message@),
{
    let mut events: Vec<Event> = Vec::new();
    events.push(Event { role: Role::Stderr, line: banner_line(listing_path) });
    events.push(Event { role: Role::Stderr, line: error_line(listing_path, message) });
    proof {
        assert(events_view(events@) =~~= spec_open_failure_events(listing_path@, message@));
    }
    Report { events, success: false }
}

} // verus!
