//! The listing generator: assembly of a new SFV listing.
//!
//! A generation run produces, in order: a three-line header comment block
//! (tool and version with the generation time, the project web site, and a
//! lone `;`); one comment line per input that exists as a regular file,
//! with its size, its last-modified time and its path; and then, for every
//! input, either its entry line or an error line on the stderr role.  The
//! run succeeds exactly when every input could be checksummed.

use vstd::prelude::*;
use vstd::string::StrSliceExecFns;
use vstd::string::StringExecFns;

use chrono::Datelike;
use chrono::Timelike;

use crate::checksum::Crc32;
use crate::listing::entry_line;
use crate::listing::spec_entry_line;
use crate::paths::basename;
use crate::paths::spec_basename;
use crate::report::events_view;
use crate::report::lemma_events_view_push;
use crate::report::Event;
use crate::report::Report;
use crate::report::Role;
use crate::textfmt::push_char;
use crate::textfmt::push_dec_space_pad;
use crate::textfmt::push_dec_zero_pad;
use crate::textfmt::spec_dec;
use crate::textfmt::spec_left_pad;
use crate::verify::spec_error_line;

verus! {

/// A calendar date and time of day, split into plain fields.
#[derive(Clone, Copy, PartialEq, Eq, Structural, Debug)]
pub struct Timestamp {
    /// The calendar year.
    pub year: i32,
    /// The month, starting from 1.
    pub month: u32,
    /// The day of month, starting from 1.
    pub day: u32,
    /// The hour, from 0 to 23.
    pub hour: u32,
    /// The minute, from 0 to 59.
    pub minute: u32,
    /// The second, from 0 to 59.
    pub second: u32,
}

/// The field ranges a well-formed timestamp keeps.
pub open spec fn timestamp_wf(t: Timestamp) -> bool {
    &&& 1 <= t.month <= 12
    &&& 1 <= t.day <= 31
    &&& t.hour <= 23
    &&& t.minute <= 59
    &&& t.second <= 59
}

/// Relies on `chrono::Local::now` and chrono's `Datelike` / `Timelike`
/// accessors for the current local time.  Nothing can be promised about
/// which moment comes back; the accessors' documented field ranges hold of
/// every outcome.
#[verifier::external_body]
pub fn local_now() -> (t: Timestamp)
    ensures
        timestamp_wf(t),
{
    let now = chrono::Local::now();
    Timestamp {
        year: now.year(),
        month: now.month(),
        day: now.day(),
        hour: now.hour(),
        minute: now.minute(),
        second: now.second(),
    }
}

/// A year zero-padded to four columns, the sign leading as Rust's
/// sign-aware zero padding writes it.
pub open spec fn spec_year4(y: int) -> Seq<char> {
    if y >= 0 {
        spec_left_pad(spec_dec(y as nat), 4, '0')
    } else {
        seq!['-'] + spec_left_pad(spec_dec((-y) as nat), 3, '0')
    }
}

/// A field zero-padded to two columns.
pub open spec fn spec_zero2(n: nat) -> Seq<char> {
    spec_left_pad(spec_dec(n), 2, '0')
}

/// A date as `YYYY-MM-DD`.
pub open spec fn spec_date(t: Timestamp) -> Seq<char> {
    spec_year4(t.year as int) + "-"@ + spec_zero2(t.month as nat) + "-"@ + spec_zero2(t.day as nat)
}

/// A time of day as `HH:MM.SS`.
pub open spec fn spec_time(t: Timestamp) -> Seq<char> {
    spec_zero2(t.hour as nat) + ":"@ + spec_zero2(t.minute as nat) + "."@ + spec_zero2(
        t.second as nat,
    )
}

/// Appends the four-column year.
fn push_year(out: &mut String, y: i32)
    ensures
        final(out)@ == old(out)@ + spec_year4(y as int),
{
    if y >= 0 {
        push_dec_zero_pad(out, y as u64, 4);
    } else {
        push_char(out, '-');
        let mag = -(y as i64);
        push_dec_zero_pad(out, mag as u64, 3);
        proof {
            assert(out@ =~= old(out)@ + spec_year4(y as int));
        }
    }
}

/// Appends the date `YYYY-MM-DD` of `t`.
fn push_date(out: &mut String, t: &Timestamp)
    ensures
        final(out)@ == old(out)@ + spec_date(*t),
{
    push_year(out, t.year);
    push_char(out, '-');
    push_dec_zero_pad(out, t.month as u64, 2);
    push_char(out, '-');
    push_dec_zero_pad(out, t.day as u64, 2);
    proof {
        assert("-"@ =~= seq!['-']) by {
            reveal_strlit("-");
        }
        assert(out@ =~= old(out)@ + spec_date(*t));
    }
}

/// Appends the time `HH:MM.SS` of `t`.
fn push_time(out: &mut String, t: &Timestamp)
    ensures
        final(out)@ == old(out)@ + spec_time(*t),
{
    push_dec_zero_pad(out, t.hour as u64, 2);
    push_char(out, ':');
    push_dec_zero_pad(out, t.minute as u64, 2);
    push_char(out, '.');
    push_dec_zero_pad(out, t.second as u64, 2);
    proof {
        assert(":"@ =~= seq![':']) by {
            reveal_strlit(":");
        }
        assert("."@ =~= seq!['.']) by {
            reveal_strlit(".");
        }
        assert(out@ =~= old(out)@ + spec_time(*t));
    }
}

/// What the generator records about an input that exists as a regular
/// file: its size in bytes and its last-modified time.
#[derive(Clone, Copy, PartialEq, Eq, Structural, Debug)]
pub struct FileMeta {
    /// The file's size in bytes.
    pub size: u64,
    /// The file's last-modified time.
    pub mtime: Timestamp,
}

/// One input path of a generation run: its name as given, what a look at
/// the file system found (`meta` is present only for inputs that exist as
/// regular files), and the result of checksumming it — the checksum, or
/// the error text of the failed read.
#[derive(Debug)]
pub struct GenEntry {
    /// The path as given on the command line.
    pub name: String,
    /// Size and last-modified time, for inputs that exist as regular
    /// files.
    pub meta: Option<FileMeta>,
    /// The computed checksum, or the error text of the failed read.
    pub crc: Result<Crc32, String>,
}

/// Whether the input could be checksummed.
pub open spec fn gen_ok(e: GenEntry) -> bool {
    e.crc is Ok
}

/// Whether every input could be checksummed.
pub open spec fn gens_all_ok(es: Seq<GenEntry>) -> bool {
    forall|i: int| 0 <= i < es.len() ==> gen_ok(#[trigger] es[i])
}

/// The name an entry line is written under: the path as given, or only
/// its final component.
pub open spec fn spec_display_name(name: Seq<char>, print_basename: bool) -> Seq<char> {
    if print_basename {
        spec_basename(name)
    } else {
        name
    }
}

/// The header comment block of a generated listing.
pub open spec fn spec_gen_header(version: Seq<char>, website: Seq<char>, now: Timestamp) -> Seq<
    (Role, Seq<char>),
> {
    seq![
        (
            Role::Stdout,
            "; Generated by cksfv.rs v"@ + version + " on "@ + spec_date(now) + " at "@
                + spec_time(now),
        ),
        (Role::Stdout, "; Project web site: "@ + website),
        (Role::Stdout, ";"@),
    ]
}

/// The comment line describing one input that exists as a regular file:
/// its size right-aligned to twelve columns, its last-modified time, and
/// its path as given.
pub open spec fn spec_meta_line(name: Seq<char>, m: FileMeta) -> Seq<char> {
    "; "@ + spec_left_pad(spec_dec(m.size as nat), 12, ' ') + "  "@ + spec_time(m.mtime) + " "@
        + spec_date(m.mtime) + " "@ + name
}

/// The comment lines of the inputs that exist as regular files, in input
/// order.
pub open spec fn meta_events(es: Seq<GenEntry>) -> Seq<(Role, Seq<char>)>
    decreases es.len(),
{
    if es.len() == 0 {
        Seq::empty()
    } else {
        meta_events(es.drop_last()) + (match es.last().meta {
            Option::Some(m) => seq![(Role::Stdout, spec_meta_line(es.last().name@, m))],
            Option::None => Seq::<(Role, Seq<char>)>::empty(),
        })
    }
}

/// The result line of one input: its entry line, or an error line on the
/// stderr role when the read failed.
pub open spec fn gen_lines(e: GenEntry, print_basename: bool) -> Seq<(Role, Seq<char>)> {
    match e.crc {
        Result::Ok(crc) => seq![
            (Role::Stdout, spec_entry_line(spec_display_name(e.name@, print_basename), crc)),
        ],
        Result::Err(message) => seq![(Role::Stderr, spec_error_line(e.name@, message@))],
    }
}

/// The result lines of all inputs, in input order.
pub open spec fn gen_events(es: Seq<GenEntry>, print_basename: bool) -> Seq<(Role, Seq<char>)>
    decreases es.len(),
{
    if es.len() == 0 {
        Seq::empty()
    } else {
        gen_events(es.drop_last(), print_basename) + gen_lines(es.last(), print_basename)
    }
}

/// Everything a generation run produces.
pub open spec fn spec_newsfv_events(
    version: Seq<char>,
    website: Seq<char>,
    now: Timestamp,
    es: Seq<GenEntry>,
    print_basename: bool,
) -> Seq<(Role, Seq<char>)> {
    spec_gen_header(version, website, now) + meta_events(es) + gen_events(es, print_basename)
}

/// Builds the first header line.
fn header_line(version: &str, now: &Timestamp) -> (r: String)
    ensures
        r@ == "; Generated by cksfv.rs v"@ + version@ + " on "@ + spec_date(*now) + " at "@
            + spec_time(*now),
{
    let mut r = "; Generated by cksfv.rs v".to_owned();
    r.append(version);
    r.append(" on ");
    push_date(&mut r, now);
    r.append(" at ");
    push_time(&mut r, now);
    proof {
        assert(r@ =~= "; Generated by cksfv.rs v"@ + version@ + " on "@ + spec_date(*now) + " at "@
            + spec_time(*now));
    }
    r
}

/// Builds the comment line for one input that exists as a regular file.
fn meta_line(name: &str, m: &FileMeta) -> (r: String)
    ensures
        r@ == spec_meta_line(name@, *m),
{
    let mut r = "; ".to_owned();
    push_dec_space_pad(&mut r, m.size, 12);
    r.append("  ");
    push_time(&mut r, &m.mtime);
    r.append(" ");
    push_date(&mut r, &m.mtime);
    r.append(" ");
    r.append(name);
    proof {
        assert(r@ =~= spec_meta_line(name@, *m));
    }
    r
}

/// Assembles the report of a generation run: the header block, one
/// comment line per input that exists as a regular file, and one result
/// line per input.  The run succeeds exactly when every input could be
/// checksummed.
pub fn newsfv_report(
    version: &str,
    website: &str,
    now: Timestamp,
    entries: Vec<GenEntry>,
    print_basename: bool,
) -> (r: Report)
    ensures
        r.success == gens_all_ok(entries@),
        events_view(r.events@) == spec_newsfv_events(
            version@,
            website@,
            now,
            entries@,
            print_basename,
        ),
{
    let mut events: Vec<Event> = Vec::new();
    events.push(Event { role: Role::Stdout, line: header_line(version, &now) });
    let mut site = "; Project web site: ".to_owned();
    site.append(website);
    events.push(Event { role: Role::Stdout, line: site });
    events.push(Event { role: Role::Stdout, line: ";".to_owned() });
    let ghost header = spec_gen_header(version@, website@, now);
    proof {
        assert(events_view(events@) =~~= header);
    }

    let n = entries.len();
    let mut i: usize = 0;
    while i < n
        invariant
            i <= n,
            n == entries@.len(),
            events_view(events@) =~~= header + meta_events(entries@.take(i as int)),
        decreases n - i,
    {
        proof {
            assert(entries@.take(i + 1).drop_last() =~= entries@.take(i as int));
            assert(entries@.take(i + 1).last() == entries@[i as int]);
        }
        let e = &entries[i];
        let ghost pre = events@;
        match &e.meta {
            Option::Some(m) => {
                let ev = Event { role: Role::Stdout, line: meta_line(e.name.as_str(), m) };
                events.push(ev);
                proof {
                    lemma_events_view_push(pre, ev);
                }
            },
            Option::None => {},
        }
        proof {
            assert(events_view(events@) =~~= header + meta_events(entries@.take(i + 1)));
        }
        i = i + 1;
    }
    proof {
        assert(entries@.take(n as int) =~= entries@);
    }

    let ghost mids = events_view(events@);
    let mut ok = true;
    let mut i: usize = 0;
    while i < n
        invariant
            i <= n,
            n == entries@.len(),
            ok == gens_all_ok(entries@.take(i as int)),
            events_view(events@) =~~= mids + gen_events(entries@.take(i as int), print_basename),
        decreases n - i,
    {
        proof {
            assert(entries@.take(i + 1).drop_last() =~= entries@.take(i as int));
            assert(entries@.take(i + 1).last() == entries@[i as int]);
        }
        let e = &entries[i];
        let ghost pre = events@;
        match &e.crc {
            Result::Ok(crc) => {
                let line = if print_basename {
                    entry_line(basename(e.name.as_str()), *crc)
                } else {
                    entry_line(e.name.as_str(), *crc)
                };
                let ev = Event { role: Role::Stdout, line };
                events.push(ev);
                proof {
                    lemma_events_view_push(pre, ev);
                }
            },
            Result::Err(message) => {
                let mut line = "cksfv: ".to_owned();
                line.append(e.name.as_str());
                line.append(": ");
                line.append(message.as_str());
                proof {
                    assert(line@ =~= spec_error_line(e.name@, message@));
                }
                let ev = Event { role: Role::Stderr, line };
                events.push(ev);
                ok = false;
                proof {
                    lemma_events_view_push(pre, ev);
                }
            },
        }
        proof {
            if ok {
                assert(gens_all_ok(entries@.take(i + 1)));
            } else {
                if gen_ok(entries@[i as int]) {
                    let w = choose|j: int| 0 <= j < i && !gen_ok(entries@.take(i as int)[j]);
                    assert(!gen_ok(entries@.take(i + 1)[w]));
                } else {
                    assert(!gen_ok(entries@.take(i + 1)[i as int]));
                }
                assert(!gens_all_ok(entries@.take(i + 1)));
            }
            assert(events_view(events@) =~~= mids + gen_events(
                entries@.take(i + 1),
                print_basename,
            ));
        }
        i = i + 1;
    }
    proof {
        assert(entries@.take(n as int) =~= entries@);
        assert(events_view(events@) =~~= spec_newsfv_events(
            version@,
            website@,
            now,
            entries@,
            print_basename,
        ));
    }
    Report { events, success: ok }
}

} // verus!
