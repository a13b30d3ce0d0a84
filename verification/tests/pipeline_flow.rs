use kbart_harvester::errors::{HarvestError, Outcome};
use kbart_harvester::headers::kbart_header_with_coverage_notes;
use kbart_harvester::outcomes::Outcomes;
use kbart_harvester::pipeline::{on_fetch, on_probe, on_write, plan_line, start_job, LinePlan, Step};
use kbart_harvester::pool::Pool;

/// Drive one unit of work to its outcome, answering each step with the given
/// canned responses, and note which destinations would have been written.
fn run_unit(
    line: String,
    validate: bool,
    probe: Result<String, HarvestError>,
    fetch: Result<Vec<u8>, HarvestError>,
    write: Result<(), HarvestError>,
    written: &mut Vec<(String, Vec<u8>)>,
) -> Outcome {
    let mut step = start_job(line, validate);
    loop {
        step = match step {
            Step::Probe { url, dest } => on_probe(url, dest, probe.clone()),
            Step::Fetch { url: _, dest } => on_fetch(dest, fetch.clone()),
            Step::Write { dest, body } => {
                if write.is_ok() {
                    written.push((dest, body));
                }
                on_write(write.clone())
            }
            Step::Done { outcome } => return outcome,
        };
    }
}

#[test]
fn blank_and_failed_reads_are_skipped() {
    assert!(matches!(plan_line(None), LinePlan::Skip));
    assert!(matches!(plan_line(Some(String::new())), LinePlan::Skip));
    assert!(matches!(plan_line(Some(String::from("   \t  "))), LinePlan::Skip));
    assert!(matches!(plan_line(Some(String::from("\r"))), LinePlan::Skip));
}

#[test]
fn unicode_whitespace_lines_are_skipped() {
    // Lines that trim to empty must be skipped whatever whitespace they
    // hold: vertical tab, form feed, next line, no-break space, ogham space
    // mark, the en-quad..hair-space range, line and paragraph separators,
    // narrow and medium spaces, ideographic space.
    for line in [
        "\u{000B}",
        "\u{000C}",
        "\u{0085}\u{00A0}",
        "\u{1680}\u{2000}\u{2005}\u{200A}",
        "\u{2028}\u{2029}\u{202F}\u{205F}\u{3000}",
    ] {
        assert!(line.trim().is_empty());
        assert!(matches!(plan_line(Some(String::from(line))), LinePlan::Skip));
    }
}

#[test]
fn nonblank_line_becomes_a_job() {
    match plan_line(Some(String::from("https://host/a/b.kbart"))) {
        LinePlan::Job(url) => assert_eq!(url, "https://host/a/b.kbart"),
        LinePlan::Skip => panic!("a non-blank line must spawn a unit of work"),
    }
}

#[test]
fn validation_disabled_goes_straight_to_fetch() {
    match start_job(String::from("https://host/a/b.kbart"), false) {
        Step::Fetch { url, dest } => {
            assert_eq!(url, "https://host/a/b.kbart");
            assert_eq!(dest, "b.kbart");
        }
        _ => panic!("with validation disabled the first step must be the full fetch"),
    }
}

#[test]
fn validation_enabled_probes_first() {
    match start_job(String::from("https://host/a/b.kbart"), true) {
        Step::Probe { url, dest } => {
            assert_eq!(url, "https://host/a/b.kbart");
            assert_eq!(dest, "b.kbart");
        }
        _ => panic!("with validation enabled the first step must be the probe"),
    }
}

#[test]
fn failed_probe_creates_no_file() {
    let mut written = Vec::new();
    let outcome = run_unit(
        String::from("https://host/a/b.kbart"),
        true,
        Ok(String::from("<html>not kbart</html>")),
        Ok(b"row\trow\n".to_vec()),
        Ok(()),
        &mut written,
    );
    assert_eq!(outcome, Outcome::Failure(HarvestError::InvalidFormat));
    assert!(written.is_empty(), "a failed validation must not touch the destination");
}

#[test]
fn probe_transport_failure_is_propagated() {
    let mut written = Vec::new();
    let outcome = run_unit(
        String::from("https://host/a/b.kbart"),
        true,
        Err(HarvestError::TransportError),
        Ok(b"row\n".to_vec()),
        Ok(()),
        &mut written,
    );
    assert_eq!(outcome, Outcome::Failure(HarvestError::TransportError));
    assert!(written.is_empty());
}

#[test]
fn matching_probe_fetches_and_writes_full_body() {
    let mut written = Vec::new();
    let probe_text = format!("{}\nrow", kbart_header_with_coverage_notes());
    let body = b"header row\nrow 1\nrow 2\n".to_vec();
    let outcome = run_unit(
        String::from("https://host/a/b.kbart"),
        true,
        Ok(probe_text),
        Ok(body.clone()),
        Ok(()),
        &mut written,
    );
    assert_eq!(outcome, Outcome::Success);
    assert_eq!(written.len(), 1);
    assert_eq!(written[0].0, "b.kbart");
    assert_eq!(written[0].1, body, "the written body must be the fetched body, byte for byte");
}

#[test]
fn write_failure_is_reported() {
    let mut written = Vec::new();
    let outcome = run_unit(
        String::from("https://host/a/b.kbart"),
        false,
        Ok(String::new()),
        Ok(b"data".to_vec()),
        Err(HarvestError::FilesystemError),
        &mut written,
    );
    assert_eq!(outcome, Outcome::Failure(HarvestError::FilesystemError));
}

#[test]
fn one_failure_does_not_stop_a_sibling() {
    let mut written = Vec::new();
    let remote_body = b"publication_title\t...\nThe Journal\n".to_vec();
    let bad = run_unit(
        String::from("not a url"),
        false,
        Ok(String::new()),
        Ok(remote_body.clone()),
        Ok(()),
        &mut written,
    );
    assert_eq!(bad, Outcome::Failure(HarvestError::ParseError));
    let good = run_unit(
        String::from("https://example.org/data/foo.txt"),
        false,
        Ok(String::new()),
        Ok(remote_body.clone()),
        Ok(()),
        &mut written,
    );
    assert_eq!(good, Outcome::Success);
    assert_eq!(written.len(), 1, "only the well-formed sibling writes, and it still writes");
    assert_eq!(written[0].0, "foo.txt");
    assert_eq!(written[0].1, remote_body, "the local copy must be byte-identical");
}

#[test]
fn batch_scenario_two_successes_one_missing_path() {
    // Input lines, a worker bound of two, validation disabled.
    let lines = [
        Some(String::from("https://host/a/b.kbart")),
        Some(String::from("")),
        Some(String::from("ftp:///")),
        Some(String::from("https://host/c.kbart")),
    ];
    let mut pool = Pool::new(2);
    let mut collected = Outcomes::new();
    let mut written = Vec::new();
    let mut failures = Vec::new();
    for line in lines {
        match plan_line(line) {
            LinePlan::Skip => {}
            LinePlan::Job(url) => {
                while !pool.try_admit() {
                    // A full pool would make the unit wait; driven serially,
                    // a slot is always free.
                }
                let outcome = run_unit(
                    url,
                    false,
                    Ok(String::new()),
                    Ok(b"publication_title\tetc\n".to_vec()),
                    Ok(()),
                    &mut written,
                );
                if let Outcome::Failure(e) = outcome {
                    failures.push(e);
                }
                collected.record(outcome);
                pool.release();
            }
        }
    }
    assert_eq!(collected.len(), 3, "the blank line must produce no outcome at all");
    assert_eq!(collected.success_count(), 2);
    assert_eq!(collected.failure_count(), 1);
    assert_eq!(failures, vec![HarvestError::MissingPath]);
    let dests: Vec<&str> = written.iter().map(|(d, _)| d.as_str()).collect();
    assert_eq!(dests, vec!["b.kbart", "c.kbart"]);
}

#[test]
fn pool_never_exceeds_capacity() {
    // Ten well-formed units against three slots: admission stops at three
    // in flight, and a freed slot admits the next unit.
    let mut pool = Pool::new(3);
    let mut finished: usize = 0;
    let mut max_in_flight: usize = 0;
    let mut waiting: usize = 10;
    while finished < 10 {
        while waiting > 0 && pool.try_admit() {
            waiting -= 1;
            if pool.active_units() > max_in_flight {
                max_in_flight = pool.active_units();
            }
        }
        assert!(pool.active_units() <= pool.capacity_units());
        pool.release();
        finished += 1;
    }
    assert_eq!(max_in_flight, 3);
    assert_eq!(pool.active_units(), 0);
}

#[test]
fn outcome_counts() {
    let mut o = Outcomes::new();
    assert_eq!(o.len(), 0);
    o.record(Outcome::Success);
    o.record(Outcome::Failure(HarvestError::TransportError));
    o.record(Outcome::Success);
    assert_eq!(o.len(), 3);
    assert_eq!(o.success_count(), 2);
    assert_eq!(o.failure_count(), 1);
    assert_eq!(o.get(1), Outcome::Failure(HarvestError::TransportError));
}
