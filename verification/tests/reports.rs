//! Report assembly: verification runs, generation runs, classification,
//! aggregation and the configuration surface.

use cksfv::config::emit_report;
use cksfv::config::Config;
use cksfv::generator::newsfv_report;
use cksfv::generator::FileMeta;
use cksfv::generator::GenEntry;
use cksfv::generator::Timestamp;
use cksfv::report::combine_results;
use cksfv::report::Role;
use cksfv::sink::Output;
use cksfv::verify::classify;
use cksfv::verify::open_failure_report;
use cksfv::verify::verify_report;
use cksfv::verify::EntryCheck;
use cksfv::verify::Outcome;

fn banner(path: &str) -> String {
    format!("--( Verifying: {} ){}", path, "-".repeat(63usize.saturating_sub(path.len())))
}

fn lines_of(report: &cksfv::report::Report) -> Vec<(bool, String)> {
    report
        .events
        .iter()
        .map(|e| (matches!(e.role, Role::Stdout), e.line.clone()))
        .collect()
}

/// A mismatch is classified with both the recorded and the computed value.
#[test]
fn mismatch_carries_both_values() {
    let check = EntryCheck::Crc {
        name: "1.txt".to_string(),
        recorded: 0xABCD_EF12,
        computed: 0x1234_5678,
    };
    match classify(&check) {
        Outcome::Mismatch { recorded, computed } => {
            assert_eq!(recorded, 0xABCD_EF12);
            assert_eq!(computed, 0x1234_5678);
        },
        other => panic!("expected a mismatch, got {:?}", other),
    }
}

/// A recorded value parsed from `"1.txt ABCDEF12"` against an actual CRC32
/// of `12345678` is reported as a mismatch and fails the run.
#[test]
fn mismatch_report() {
    let checks = vec![EntryCheck::Crc {
        name: "1.txt".to_string(),
        recorded: 0xABCD_EF12,
        computed: 0x1234_5678,
    }];
    let report = verify_report("list.sfv", checks, false);
    assert!(!report.success);
    assert_eq!(
        lines_of(&report),
        vec![
            (false, banner("list.sfv")),
            (true, "cksfv: 1.txt: Has a different CRC".to_string()),
            (false, "-".repeat(80)),
            (true, "Errors Occured".to_string()),
        ]
    );
}

/// An unreadable file is reported for its entry and fails the run, and
/// the entries after it are still checked and reported.
#[test]
fn io_failure_does_not_stop_the_run() {
    let checks = vec![
        EntryCheck::Failed {
            name: "missing.txt".to_string(),
            message: "No such file or directory (os error 2)".to_string(),
        },
        EntryCheck::Crc { name: "2.txt".to_string(), recorded: 0x2B, computed: 0x2B },
    ];
    let report = verify_report("list.sfv", checks, false);
    assert!(!report.success);
    assert_eq!(
        lines_of(&report),
        vec![
            (false, banner("list.sfv")),
            (
                true,
                format!("{:<50}{}", "missing.txt", "No such file or directory (os error 2)")
            ),
            (true, format!("{:<50}OK", "2.txt")),
            (false, "-".repeat(80)),
            (true, "Errors Occured".to_string()),
        ]
    );
}

/// A malformed listing line fails its own entry and nothing else.
#[test]
fn malformed_entry_reported() {
    let checks = vec![
        EntryCheck::Malformed { line: "no-checksum-here".to_string() },
        EntryCheck::Crc { name: "2.txt".to_string(), recorded: 0x2B, computed: 0x2B },
    ];
    let report = verify_report("list.sfv", checks, false);
    assert!(!report.success);
    let lines = lines_of(&report);
    assert_eq!(lines[1], (true, format!("{:<50}Malformed entry", "no-checksum-here")));
    assert_eq!(lines[2], (true, format!("{:<50}OK", "2.txt")));
}

/// An all-match run succeeds and confirms every entry.
#[test]
fn successful_run() {
    let checks = vec![
        EntryCheck::Crc { name: "1.txt".to_string(), recorded: 0x1A, computed: 0x1A },
        EntryCheck::Crc { name: "2.txt".to_string(), recorded: 0x2B, computed: 0x2B },
    ];
    let report = verify_report("12.sfv", checks, false);
    assert!(report.success);
    assert_eq!(
        lines_of(&report),
        vec![
            (false, banner("12.sfv")),
            (true, format!("{:<50}OK", "1.txt")),
            (true, format!("{:<50}OK", "2.txt")),
            (false, "-".repeat(80)),
            (true, "Everything OK".to_string()),
        ]
    );
}

/// The banner keeps its 80 columns for short paths and clamps the filler
/// for long ones.
#[test]
fn banner_width() {
    let report = verify_report("12.sfv", Vec::new(), false);
    assert_eq!(report.events[0].line.len(), 80);
    let long = "x".repeat(100);
    let report = verify_report(&long, Vec::new(), false);
    assert_eq!(report.events[0].line, format!("--( Verifying: {} )", long));
}

/// A name wider than the 50-column field is kept whole, not truncated.
#[test]
fn long_names_not_truncated() {
    let long = "n".repeat(60);
    let checks = vec![EntryCheck::Crc { name: long.clone(), recorded: 1, computed: 1 }];
    let report = verify_report("1.sfv", checks, false);
    assert_eq!(report.events[1].line, format!("{}OK", long));
}

/// Quiet mode suppresses the OK lines and the summary, and a clean quiet
/// run writes nothing at all to the stdout role.
#[test]
fn quiet_success_is_silent() {
    let checks = vec![
        EntryCheck::Crc { name: "1.txt".to_string(), recorded: 0x1A, computed: 0x1A },
    ];
    let report = verify_report("1.sfv", checks, true);
    assert!(report.success);
    assert_eq!(lines_of(&report), vec![(false, banner("1.sfv")), (false, "-".repeat(80))]);
}

/// Quiet mode still reports mismatches and errors, in its own formats.
#[test]
fn quiet_reports_problems() {
    let checks = vec![
        EntryCheck::Crc { name: "ok.txt".to_string(), recorded: 0x1A, computed: 0x1A },
        EntryCheck::Crc { name: "bad.txt".to_string(), recorded: 0x1A, computed: 0x2B },
        EntryCheck::Failed { name: "gone.txt".to_string(), message: "unreadable".to_string() },
    ];
    let report = verify_report("1.sfv", checks, true);
    assert!(!report.success);
    assert_eq!(
        lines_of(&report),
        vec![
            (false, banner("1.sfv")),
            (true, format!("{:<50}different CRC", "bad.txt")),
            (true, "cksfv: gone.txt: unreadable".to_string()),
            (false, "-".repeat(80)),
        ]
    );
}

/// A listing that cannot be opened produces the banner and one error
/// line, fails, and emits no separator or summary.
#[test]
fn open_failure_short_circuits() {
    let report = open_failure_report("gone.sfv", "No such file or directory (os error 2)");
    assert!(!report.success);
    assert_eq!(
        lines_of(&report),
        vec![
            (false, banner("gone.sfv")),
            (false, "cksfv: gone.sfv: No such file or directory (os error 2)".to_string()),
        ]
    );
}

fn noon(day: u32) -> Timestamp {
    Timestamp { year: 2021, month: 3, day, hour: 13, minute: 5, second: 9 }
}

/// A generation run writes the header block, the metadata lines of the
/// inputs that exist, and one entry line per input.
#[test]
fn generation_report() {
    let entries = vec![
        GenEntry {
            name: "1.txt".to_string(),
            meta: Some(FileMeta { size: 7, mtime: noon(4) }),
            crc: Ok(0xABCD_EF12),
        },
        GenEntry {
            name: "gone.txt".to_string(),
            meta: None,
            crc: Err("No such file or directory (os error 2)".to_string()),
        },
    ];
    let report = newsfv_report("0.1.0", "https://example.invalid/cksfv", noon(2), entries, false);
    assert!(!report.success);
    assert_eq!(
        lines_of(&report),
        vec![
            (true, "; Generated by cksfv.rs v0.1.0 on 2021-03-02 at 13:05.09".to_string()),
            (true, "; Project web site: https://example.invalid/cksfv".to_string()),
            (true, ";".to_string()),
            (true, format!("; {:>12}  13:05.09 2021-03-04 1.txt", 7)),
            (true, "1.txt ABCDEF12".to_string()),
            (false, "cksfv: gone.txt: No such file or directory (os error 2)".to_string()),
        ]
    );
}

/// The basename flag shortens the entry line's name, and only that.
#[test]
fn generation_basename() {
    let entries = vec![GenEntry {
        name: "dir/sub/1.txt".to_string(),
        meta: Some(FileMeta { size: 123_456_789, mtime: noon(4) }),
        crc: Ok(0x1F),
    }];
    let report = newsfv_report("0.1.0", "w", noon(2), entries, true);
    assert!(report.success);
    let lines = lines_of(&report);
    assert_eq!(lines[3], (true, format!("; {:>12}  13:05.09 2021-03-04 dir/sub/1.txt", 123_456_789)));
    assert_eq!(lines[4], (true, "1.txt 1F".to_string()));
}

/// The clock wrapper hands back fields in the documented ranges.
#[test]
fn local_now_in_range() {
    let t = cksfv::generator::local_now();
    assert!((1..=12).contains(&t.month));
    assert!((1..=31).contains(&t.day));
    assert!(t.hour <= 23 && t.minute <= 59 && t.second <= 59);
    assert!(t.year >= 2020);
}

/// The recursive aggregate succeeds only if every listing succeeded.
#[test]
fn aggregate_over_listings() {
    assert!(combine_results(&Vec::new()));
    assert!(combine_results(&vec![true, true, true]));
    assert!(!combine_results(&vec![true, false, true]));
    assert!(!combine_results(&vec![false]));
}

/// The configuration builders keep the untouched fields.
#[test]
fn config_surface() {
    let c = Config::new();
    assert_eq!(c.stdout, Output::Stdout);
    assert_eq!(c.stderr, Output::Stderr);
    assert!(!c.quiet && !c.print_basename && !c.ignore_case && !c.force_slashes);

    let c = Config::default()
        .with_stdout(Output::devnull())
        .with_stderr(Output::stdout())
        .with_print_basenamet(true);
    assert_eq!(c.stdout, Output::Devnull);
    assert_eq!(c.stderr, Output::Stdout);
    assert!(c.print_basename);
    assert_eq!(c.extract_stdout(), Output::Devnull);

    let mut c = Config::new();
    c.set_quiet(true);
    c.set_stdout(Output::stderr());
    c.set_stderr(Output::devnull());
    c.set_print_basename(true);
    assert!(c.quiet && c.print_basename);
    assert_eq!(c.stdout, Output::Stderr);
    assert_eq!(c.stderr, Output::Devnull);
}

/// Discarding sinks accept everything.
#[test]
fn devnull_sinks_never_fail() {
    let config = Config::new().with_stdout(Output::devnull()).with_stderr(Output::devnull());
    let checks = vec![
        EntryCheck::Crc { name: "1.txt".to_string(), recorded: 0x1A, computed: 0x2B },
    ];
    let report = verify_report("1.sfv", checks, false);
    assert!(emit_report(&config, &report));
    assert!(Output::devnull().write_line("anything"));
}
