use snapshot_downloader::acquire::{Acquisition, Action, Event, Phase};
use snapshot_downloader::multipart::{part_label, Assembly, AssemblyAction, AssemblyEvent};
use snapshot_downloader::retry::DownloadRetryConfig;
use snapshot_downloader::source::{
    file_name_from_url, http_open, http_probe, range_header, OpenOutcome, RemoteObjectInfo,
    TransferError,
};
use snapshot_downloader::writer::{open_mode, OpenMode, WriteProgress};

fn policy(max_retries: u32) -> DownloadRetryConfig {
    DownloadRetryConfig {
        max_retries,
        initial_delay_secs: 1,
        max_delay_secs: 300,
        backoff_multiplier: 2,
    }
}

fn info(total: u64) -> RemoteObjectInfo {
    RemoteObjectInfo { total_size: total, supports_range_resume: true }
}

#[test]
fn delay_doubles_and_is_clamped() {
    let p = DownloadRetryConfig::default();
    assert_eq!(p.calculate_delay(0), 1);
    assert_eq!(p.calculate_delay(1), 2);
    assert_eq!(p.calculate_delay(3), 8);
    assert_eq!(p.calculate_delay(8), 256);
    assert_eq!(p.calculate_delay(9), 300);
    assert_eq!(p.calculate_delay(u32::MAX), 300);
}

#[test]
fn delay_with_other_factors() {
    let mut p = DownloadRetryConfig {
        max_retries: 3,
        initial_delay_secs: 5,
        max_delay_secs: 1000,
        backoff_multiplier: 3,
    };
    assert_eq!(p.calculate_delay(2), 45);
    assert_eq!(p.calculate_delay(5), 1000);
    p.backoff_multiplier = 1;
    assert_eq!(p.calculate_delay(40), 5);
    p.backoff_multiplier = 0;
    assert_eq!(p.calculate_delay(0), 5);
    assert_eq!(p.calculate_delay(1), 0);
    p.initial_delay_secs = 2000;
    p.backoff_multiplier = 2;
    assert_eq!(p.calculate_delay(0), 1000);
}

#[test]
fn defaults_of_retry_policy() {
    let p = DownloadRetryConfig::default();
    assert_eq!(p.max_retries, 5);
    assert_eq!(p.initial_delay_secs, 1);
    assert_eq!(p.max_delay_secs, 300);
    assert_eq!(p.backoff_multiplier, 2);
    assert!(p.should_retry(4));
    assert!(!p.should_retry(5));
}

#[test]
fn complete_file_is_not_fetched_again() {
    let url = "https://example.com/snapshots/data.tar.lz4";
    for _ in 0..2 {
        let (mut m, first) = Acquisition::new(policy(5));
        assert_eq!(first, Action::InspectLocal);
        assert_eq!(m.step(Event::Inspected(Ok(1000))), Action::Probe);
        assert_eq!(m.step(Event::Probed(Ok(info(1000)))), Action::Complete);
        assert!(m.is_finished());
    }
    assert_eq!(file_name_from_url(url), file_name_from_url(url));
    assert_eq!(file_name_from_url(url), "data.tar.lz4");
}

#[test]
fn partial_file_is_resumed_from_its_size() {
    let (mut m, _) = Acquisition::new(policy(5));
    assert_eq!(m.step(Event::Inspected(Ok(40))), Action::Probe);
    assert_eq!(m.step(Event::Probed(Ok(info(100)))), Action::OpenStream { from: 40 });
    assert_eq!(
        m.step(Event::Opened(Ok(OpenOutcome::Streaming))),
        Action::Transfer { existing: 40, total: 100 }
    );
    assert_eq!(m.step(Event::Transferred(Ok(()))), Action::Complete);
    assert_eq!(range_header(40), "bytes=40-");
    assert_eq!(open_mode(40), OpenMode::Append);

    let object: Vec<u8> = (0..100u32).map(|i| (i * 7 % 251) as u8).collect();
    let mut local = object[..40].to_vec();
    local.extend_from_slice(&object[40..]);
    assert_eq!(local, object);
}

#[test]
fn fresh_file_starts_at_zero() {
    let (mut m, _) = Acquisition::new(policy(5));
    m.step(Event::Inspected(Ok(0)));
    assert_eq!(m.step(Event::Probed(Ok(info(0)))), Action::OpenStream { from: 0 });
    assert_eq!(
        m.step(Event::Opened(Ok(OpenOutcome::Streaming))),
        Action::Transfer { existing: 0, total: 0 }
    );
    assert_eq!(open_mode(0), OpenMode::Truncate);
    assert_eq!(range_header(0), "bytes=0-");
    assert_eq!(range_header(18446744073709551615), "bytes=18446744073709551615-");
}

#[test]
fn three_parts_are_assembled_in_order() {
    let (mut a, first) = Assembly::new(3);
    assert_eq!(first, AssemblyAction::CheckFinal);
    let mut actions = vec![a.step(AssemblyEvent::FinalExists(false))];
    for _ in 0..3 {
        actions.push(a.step(AssemblyEvent::PartFetched(Ok(()))));
    }
    actions.push(a.step(AssemblyEvent::Concatenated(Ok(()))));
    for _ in 0..3 {
        actions.push(a.step(AssemblyEvent::PartRemoved));
    }
    assert_eq!(
        actions,
        vec![
            AssemblyAction::FetchPart { index: 0 },
            AssemblyAction::FetchPart { index: 1 },
            AssemblyAction::FetchPart { index: 2 },
            AssemblyAction::Concatenate { count: 3 },
            AssemblyAction::RemovePart { index: 0 },
            AssemblyAction::RemovePart { index: 1 },
            AssemblyAction::RemovePart { index: 2 },
            AssemblyAction::Complete,
        ]
    );
    assert_eq!(part_label(0), "part 1");
    assert_eq!(part_label(2), "part 3");

    let sizes = [100usize, 200, 150];
    let parts: Vec<Vec<u8>> = sizes.iter().enumerate().map(|(i, n)| vec![i as u8; *n]).collect();
    let assembled: Vec<u8> = parts.concat();
    assert_eq!(assembled.len(), 450);
    assert!(assembled[..100].iter().all(|b| *b == 0));
    assert!(assembled[100..300].iter().all(|b| *b == 1));
    assert!(assembled[300..].iter().all(|b| *b == 2));
}

#[test]
fn existing_assembly_fetches_nothing() {
    let (mut a, _) = Assembly::new(3);
    assert_eq!(a.step(AssemblyEvent::FinalExists(true)), AssemblyAction::Complete);
}

#[test]
fn failed_part_stops_the_assembly() {
    let (mut a, _) = Assembly::new(3);
    a.step(AssemblyEvent::FinalExists(false));
    a.step(AssemblyEvent::PartFetched(Ok(())));
    assert_eq!(
        a.step(AssemblyEvent::PartFetched(Err(TransferError::NotFound))),
        AssemblyAction::Fail { error: TransferError::NotFound }
    );
    assert!(!a.accepts(&AssemblyEvent::PartFetched(Ok(()))));
}

#[test]
fn not_found_is_one_attempt() {
    assert_eq!(http_probe(404, None, None), Err(TransferError::NotFound));
    let (mut m, _) = Acquisition::new(policy(5));
    m.step(Event::Inspected(Ok(0)));
    assert_eq!(
        m.step(Event::Probed(Err(TransferError::NotFound))),
        Action::Fail { error: TransferError::NotFound, attempts: 1 }
    );
    assert!(m.is_finished());
}

#[test]
fn transient_failures_exhaust_retries() {
    let (mut m, _) = Acquisition::new(policy(2));
    let mut probes = 0;
    let mut waits = Vec::new();
    let mut last = Action::InspectLocal;
    while !m.is_finished() {
        let action = match m.phase {
            Phase::Inspect => m.step(Event::Inspected(Ok(0))),
            Phase::Probe => {
                probes += 1;
                m.step(Event::Probed(Err(TransferError::Status(503))))
            }
            Phase::Backoff => m.step(Event::Waited),
            _ => panic!("unexpected phase"),
        };
        if let Action::Wait { secs } = action {
            waits.push(secs);
        }
        last = action;
    }
    assert_eq!(probes, 3);
    assert_eq!(waits, vec![1, 2]);
    assert_eq!(last, Action::Fail { error: TransferError::Status(503), attempts: 3 });
}

#[test]
fn no_retries_means_one_attempt() {
    let (mut m, _) = Acquisition::new(policy(0));
    m.step(Event::Inspected(Ok(0)));
    m.step(Event::Probed(Ok(info(10))));
    assert_eq!(
        m.step(Event::Opened(Err(TransferError::Io("reset".to_string())))),
        Action::Fail { error: TransferError::Io("reset".to_string()), attempts: 1 }
    );
}

#[test]
fn retry_restarts_with_a_new_inspection() {
    let (mut m, _) = Acquisition::new(policy(3));
    m.step(Event::Inspected(Ok(10)));
    m.step(Event::Probed(Ok(info(100))));
    m.step(Event::Opened(Ok(OpenOutcome::Streaming)));
    assert_eq!(
        m.step(Event::Transferred(Err(TransferError::Io("disk".to_string())))),
        Action::Wait { secs: 1 }
    );
    assert_eq!(m.step(Event::Waited), Action::InspectLocal);
    assert_eq!(m.attempt, 1);
    assert_eq!(m.step(Event::Inspected(Ok(60))), Action::Probe);
    assert_eq!(m.step(Event::Probed(Ok(info(100)))), Action::OpenStream { from: 60 });
}

#[test]
fn unsatisfiable_range_means_complete() {
    assert_eq!(http_open(416), Ok(OpenOutcome::AlreadyComplete));
    let (mut m, _) = Acquisition::new(policy(5));
    m.step(Event::Inspected(Ok(100)));
    assert_eq!(m.step(Event::Probed(Ok(info(0)))), Action::OpenStream { from: 100 });
    assert_eq!(m.step(Event::Opened(Ok(OpenOutcome::AlreadyComplete))), Action::Complete);
    assert!(m.is_finished());
}

#[test]
fn machine_refuses_unexpected_answers() {
    let (m, _) = Acquisition::new(policy(5));
    assert!(m.accepts(&Event::Inspected(Ok(0))));
    assert!(!m.accepts(&Event::Waited));
    assert!(!m.accepts(&Event::Probed(Ok(info(1)))));
}

#[test]
fn progress_counts_from_existing_bytes() {
    let mut p = WriteProgress::new(50, 1000);
    assert_eq!(p.position, 50);
    assert!(!p.record_chunk(10));
    assert_eq!(p.position, 60);
    assert!(p.record_chunk(50));
    assert_eq!(p.position, 110);
    let mut q = WriteProgress::new(u64::MAX - 1, 0);
    assert!(!q.record_chunk(10));
    assert_eq!(q.position, u64::MAX);
}
