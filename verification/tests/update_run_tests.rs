use mutenix::device_update::UpdateError;
use mutenix::update_run::{
    build_command_report, build_sessions, build_transfer_report, FileSource, UpdateAction,
    UpdateEvent, UpdatePhase, UpdateRun, READ_CAPACITY, READ_TIMEOUT_MILLIS,
};

fn source(name: &str, content: &[u8]) -> FileSource {
    FileSource { filename: name.to_string(), content: content.to_vec() }
}

fn ack_frame(id: u16, package: u16, chunk_type: u8) -> UpdateEvent {
    let mut buffer = vec![2u8];
    buffer.extend(b"AK");
    buffer.extend(&id.to_le_bytes());
    buffer.extend(&package.to_le_bytes());
    buffer.push(chunk_type);
    buffer.resize(100, 0);
    UpdateEvent::ReadDone { buffer, size: 10 }
}

fn expect_write(action: UpdateAction) -> Vec<u8> {
    match action {
        UpdateAction::Write(report) => report,
        other => panic!("unexpected {:?}", other),
    }
}

fn expect_read(action: UpdateAction) {
    match action {
        UpdateAction::Read { capacity, timeout_millis } => {
            assert_eq!(capacity, READ_CAPACITY);
            assert_eq!(timeout_millis, READ_TIMEOUT_MILLIS);
        }
        other => panic!("unexpected {:?}", other),
    }
}

fn expect_sleep(action: UpdateAction) {
    assert!(matches!(action, UpdateAction::Sleep(500)), "{:?}", action);
}

fn started(sources: Vec<FileSource>) -> (UpdateRun, UpdateAction) {
    let mut run = UpdateRun::new();
    assert_eq!(run.phase(), UpdatePhase::Idle);
    let report = expect_write(run.step(UpdateEvent::Start));
    assert_eq!(report, vec![1, 0xE0, 0, 0, 0, 0, 0, 0, 0]);
    expect_sleep(run.step(UpdateEvent::WriteDone));
    assert!(matches!(run.step(UpdateEvent::SleepDone), UpdateAction::LoadFiles));
    let action = run.step(UpdateEvent::FilesLoaded(sources));
    (run, action)
}

fn finish(run: &mut UpdateRun, action: UpdateAction) {
    expect_sleep(action);
    assert_eq!(run.phase(), UpdatePhase::CompleteSettle);
    let report = expect_write(run.step(UpdateEvent::SleepDone));
    let mut expected = vec![2u8, 4, 0];
    expected.resize(61, 0);
    assert_eq!(report, expected);
    expect_sleep(run.step(UpdateEvent::WriteDone));
    let report = expect_write(run.step(UpdateEvent::SleepDone));
    assert_eq!(report, vec![1, 0xE1, 0, 0, 0, 0, 0, 0, 0]);
    assert!(matches!(run.step(UpdateEvent::WriteDone), UpdateAction::Finish(Ok(()))));
    assert!(run.is_finished());
}

#[test]
fn test_update_of_one_file() {
    let (mut run, action) = started(vec![source("main.py", b"print(1)")]);
    assert_eq!(run.total_files(), 1);
    expect_read(action);
    // Nothing was read: the start chunk goes out.
    let report = expect_write(run.step(UpdateEvent::ReadDone { buffer: vec![0; 100], size: 0 }));
    assert_eq!(report.len(), 61);
    assert_eq!(&report[..9], &[2, 1, 0, 0, 0, 1, 0, 0, 0]);
    assert_eq!(&report[9..20], &[7, b'm', b'a', b'i', b'n', b'.', b'p', b'y', 2, 8, 0]);
    expect_read(run.step(UpdateEvent::WriteDone));
    // The acknowledgment is lost: the same chunk goes out again.
    let again = expect_write(run.step(UpdateEvent::ReadFailed("timeout".to_string())));
    assert_eq!(again, report);
    expect_read(run.step(UpdateEvent::WriteDone));
    // The start is acknowledged: the data chunk goes out.
    let report = expect_write(run.step(ack_frame(0, 0, 1)));
    assert_eq!(&report[..9], &[2, 2, 0, 0, 0, 1, 0, 0, 0]);
    assert_eq!(&report[9..17], b"print(1)");
    assert!(report[17..].iter().all(|b| *b == 0x20));
    expect_read(run.step(UpdateEvent::WriteDone));
    // An acknowledgment for another transfer changes nothing.
    let again = expect_write(run.step(ack_frame(5, 0, 2)));
    assert_eq!(again, report);
    expect_read(run.step(UpdateEvent::WriteDone));
    // A log line changes nothing either.
    let mut buffer = vec![2u8];
    buffer.extend(b"LDbusy\0");
    buffer.resize(100, 0);
    let again = expect_write(run.step(UpdateEvent::ReadDone { buffer, size: 8 }));
    assert_eq!(again, report);
    expect_read(run.step(UpdateEvent::WriteDone));
    let report = expect_write(run.step(ack_frame(0, 0, 2)));
    assert_eq!(&report[..9], &[2, 3, 0, 0, 0, 1, 0, 0, 0]);
    assert!(report[9..].iter().all(|b| *b == 0));
    expect_read(run.step(UpdateEvent::WriteDone));
    // The end is acknowledged: nothing is left to send.
    let action = run.step(ack_frame(0, 0, 3));
    finish(&mut run, action);
}

#[test]
fn test_update_of_several_files() {
    let (mut run, action) =
        started(vec![source("old.py.delete", b"ignored"), source("b.py", b"")]);
    assert_eq!(run.total_files(), 2);
    expect_read(action);
    assert_eq!(run.current_file(), 0);
    let report = expect_write(run.step(UpdateEvent::ReadDone { buffer: Vec::new(), size: 3 }));
    assert_eq!(&report[..9], &[2, 5, 0, 0, 0, 0, 0, 0, 0]);
    assert_eq!(&report[9..16], b"\x06old.py");
    expect_read(run.step(UpdateEvent::WriteDone));
    // The delete is acknowledged: the next file is read for first.
    expect_read(run.step(ack_frame(0, 0, 5)));
    assert_eq!(run.current_file(), 1);
    let report = expect_write(run.step(UpdateEvent::ReadDone { buffer: vec![0; 100], size: 0 }));
    assert_eq!(&report[..9], &[2, 1, 0, 1, 0, 0, 0, 0, 0]);
    expect_read(run.step(UpdateEvent::WriteDone));
    let report = expect_write(run.step(ack_frame(1, 0, 1)));
    assert_eq!(&report[..9], &[2, 3, 0, 1, 0, 0, 0, 0, 0]);
    expect_read(run.step(UpdateEvent::WriteDone));
    let action = run.step(ack_frame(1, 0, 3));
    finish(&mut run, action);
}

#[test]
fn test_update_without_files() {
    let (mut run, action) = started(Vec::new());
    finish(&mut run, action);
}

#[test]
fn test_device_error_ends_the_update() {
    let (mut run, action) = started(vec![source("main.py", b"x")]);
    expect_read(action);
    let mut buffer = vec![2u8];
    buffer.extend(b"ER\x04full");
    let action = run.step(UpdateEvent::ReadDone { buffer, size: 8 });
    match action {
        UpdateAction::Finish(Err(UpdateError::DeviceError(info))) => assert_eq!(info, "full"),
        other => panic!("unexpected {:?}", other),
    }
    assert!(run.is_finished());
    assert!(matches!(run.step(UpdateEvent::WriteDone), UpdateAction::Ignored));
    assert!(matches!(run.step(UpdateEvent::Start), UpdateAction::Ignored));
}

#[test]
fn test_write_failure_ends_the_update() {
    let mut run = UpdateRun::new();
    expect_write(run.step(UpdateEvent::Start));
    match run.step(UpdateEvent::WriteFailed("unplugged".to_string())) {
        UpdateAction::Finish(Err(error)) => {
            assert_eq!(error.to_string(), "Write failed: unplugged")
        }
        other => panic!("unexpected {:?}", other),
    }
    assert!(run.is_finished());
    let (mut run, action) = started(vec![source("a", b"1")]);
    expect_read(action);
    expect_write(run.step(UpdateEvent::ReadFailed("t".to_string())));
    assert_eq!(run.phase(), UpdatePhase::ChunkWrite);
    assert!(matches!(
        run.step(UpdateEvent::WriteFailed("x".to_string())),
        UpdateAction::Finish(Err(UpdateError::WriteFailed(_)))
    ));
}

#[test]
fn test_file_failure_ends_the_update() {
    let mut run = UpdateRun::new();
    run.step(UpdateEvent::Start);
    run.step(UpdateEvent::WriteDone);
    run.step(UpdateEvent::SleepDone);
    assert_eq!(run.phase(), UpdatePhase::Loading);
    let failure = UpdateError::FileError("Invalid filename".to_string());
    match run.step(UpdateEvent::FilesFailed(failure)) {
        UpdateAction::Finish(Err(error)) => {
            assert_eq!(error.to_string(), "File error: Invalid filename")
        }
        other => panic!("unexpected {:?}", other),
    }
}

#[test]
fn test_events_out_of_turn_are_ignored() {
    let mut run = UpdateRun::new();
    assert!(matches!(run.step(UpdateEvent::SleepDone), UpdateAction::Ignored));
    assert!(matches!(run.step(UpdateEvent::WriteDone), UpdateAction::Ignored));
    assert!(matches!(run.step(UpdateEvent::FilesLoaded(Vec::new())), UpdateAction::Ignored));
    assert_eq!(run.phase(), UpdatePhase::Idle);
    run.step(UpdateEvent::Start);
    assert!(matches!(run.step(UpdateEvent::Start), UpdateAction::Ignored));
    assert!(matches!(
        run.step(UpdateEvent::ReadFailed("x".to_string())),
        UpdateAction::Ignored
    ));
    assert_eq!(run.phase(), UpdatePhase::PrepareWrite);
}

#[test]
fn test_reports_and_sessions() {
    assert_eq!(build_command_report(0xE1), vec![1, 0xE1, 0, 0, 0, 0, 0, 0, 0]);
    assert_eq!(build_transfer_report(&[9, 8]), vec![2, 9, 8]);
    let sessions =
        build_sessions(&vec![source("a.py", b"1"), source("b.delete", b""), source("c", b"")]);
    assert_eq!(sessions.len(), 3);
    assert_eq!((sessions[0].id, sessions[1].id, sessions[2].id), (0, 1, 2));
    assert_eq!(sessions[1].filename, "b");
    assert_eq!(sessions[0].total_chunks(), 3);
    assert_eq!(sessions[1].total_chunks(), 1);
    assert_eq!(sessions[2].total_chunks(), 2);
}
