use release_channels::error::{CommandError, NO_PENDING_UPDATE};
use release_channels::fetch::{complete_fetch, AvailableUpdate};
use release_channels::install::{
    begin_install, complete_install, DownloadProgress, ProgressReport,
};
use release_channels::pending::PendingUpdate;

fn found(version: &str, handle: u32) -> AvailableUpdate<u32> {
    AvailableUpdate {
        version: version.to_string(),
        current_version: "1.0.0".to_string(),
        handle,
    }
}

#[test]
fn slot_starts_empty() {
    let mut slot: PendingUpdate<u32> = PendingUpdate::new();
    assert!(!slot.is_pending());
    assert_eq!(slot.take(), None);
}

#[test]
fn put_overwrites_and_take_empties() {
    let mut slot = PendingUpdate::new();
    slot.put("first".to_string());
    assert!(slot.is_pending());
    slot.put("second".to_string());
    assert_eq!(slot.take(), Some("second".to_string()));
    assert!(!slot.is_pending());
    assert_eq!(slot.take(), None);
}

#[test]
fn install_with_an_empty_slot_fails_with_no_pending_update() {
    let mut slot: PendingUpdate<u32> = PendingUpdate::new();
    let failure = begin_install(&mut slot).unwrap_err();
    assert!(matches!(failure, CommandError::NoPendingUpdate));
    assert_eq!(failure.message(), "there is no pending update");
    assert_eq!(NO_PENDING_UPDATE, "there is no pending update");
    assert!(!slot.is_pending());
}

#[test]
fn found_update_is_shown_and_stored() {
    let mut slot = PendingUpdate::new();
    let shown = complete_fetch(&mut slot, Ok(Some(found("1.2.0", 7))))
        .unwrap()
        .unwrap();
    assert_eq!(shown.version, "1.2.0");
    assert_eq!(shown.current_version, "1.0.0");
    assert!(slot.is_pending());
}

#[test]
fn found_update_installs_exactly_once() {
    let mut slot = PendingUpdate::new();
    complete_fetch(&mut slot, Ok(Some(found("1.2.0", 7)))).unwrap();
    assert!(matches!(begin_install(&mut slot), Ok(7)));
    assert!(matches!(
        begin_install(&mut slot),
        Err(CommandError::NoPendingUpdate)
    ));
    assert!(matches!(
        begin_install(&mut slot),
        Err(CommandError::NoPendingUpdate)
    ));
}

#[test]
fn second_find_replaces_the_first() {
    let mut slot = PendingUpdate::new();
    complete_fetch(&mut slot, Ok(Some(found("1.2.0", 7)))).unwrap();
    let shown = complete_fetch(&mut slot, Ok(Some(found("1.3.0", 8))))
        .unwrap()
        .unwrap();
    assert_eq!(shown.version, "1.3.0");
    assert!(matches!(begin_install(&mut slot), Ok(8)));
    assert!(matches!(
        begin_install(&mut slot),
        Err(CommandError::NoPendingUpdate)
    ));
}

#[test]
fn check_without_a_newer_build_leaves_the_slot() {
    let mut slot: PendingUpdate<u32> = PendingUpdate::new();
    assert!(complete_fetch(&mut slot, Ok(None)).unwrap().is_none());
    assert!(!slot.is_pending());

    complete_fetch(&mut slot, Ok(Some(found("1.2.0", 7)))).unwrap();
    assert!(complete_fetch(&mut slot, Ok(None)).unwrap().is_none());
    assert!(matches!(begin_install(&mut slot), Ok(7)));
}

#[test]
fn failed_check_is_an_updater_failure_and_leaves_the_slot() {
    let mut slot = PendingUpdate::new();
    complete_fetch(&mut slot, Ok(Some(found("1.2.0", 7)))).unwrap();
    let failure = complete_fetch(&mut slot, Err("connection reset".to_string())).unwrap_err();
    assert!(matches!(&failure, CommandError::Updater(account) if account == "connection reset"));
    assert_eq!(failure.message(), "connection reset");
    assert!(matches!(begin_install(&mut slot), Ok(7)));
}

#[test]
fn failed_install_does_not_restore_the_slot() {
    let mut slot = PendingUpdate::new();
    complete_fetch(&mut slot, Ok(Some(found("1.2.0", 7)))).unwrap();
    let handle = begin_install(&mut slot).unwrap();
    assert_eq!(handle, 7);
    let failure = complete_install(Err("signature mismatch".to_string())).unwrap_err();
    assert!(matches!(&failure, CommandError::Updater(account) if account == "signature mismatch"));
    assert!(!slot.is_pending());
    assert!(matches!(
        begin_install(&mut slot),
        Err(CommandError::NoPendingUpdate)
    ));
}

#[test]
fn finished_install_is_a_success() {
    assert!(matches!(complete_install(Ok(())), Ok(())));
}

#[test]
fn progress_adds_up_the_chunks() {
    let mut progress = DownloadProgress::new();
    assert_eq!(progress.downloaded(), 0);
    assert_eq!(
        progress.record_chunk(10, Some(100)),
        ProgressReport { downloaded: 10, content_length: Some(100) }
    );
    assert_eq!(
        progress.record_chunk(0, Some(100)),
        ProgressReport { downloaded: 10, content_length: Some(100) }
    );
    assert_eq!(
        progress.record_chunk(90, None),
        ProgressReport { downloaded: 100, content_length: None }
    );
    assert_eq!(progress.downloaded(), 100);
}

#[test]
fn progress_knows_when_a_chunk_no_longer_fits() {
    let mut progress = DownloadProgress::new();
    assert!(progress.has_room_for(usize::MAX));
    progress.record_chunk(1, None);
    assert!(!progress.has_room_for(usize::MAX));
    assert!(progress.has_room_for(usize::MAX - 1));
    progress.record_chunk(usize::MAX - 1, None);
    assert_eq!(progress.downloaded(), usize::MAX);
    assert!(progress.has_room_for(0));
    assert!(!progress.has_room_for(1));
}

#[test]
fn io_failure_is_told_in_its_own_words() {
    let failure = CommandError::Io(std::io::Error::new(
        std::io::ErrorKind::NotFound,
        "no such record",
    ));
    assert_eq!(failure.message(), "no such record");
}

#[test]
fn outside_failures_are_told_in_their_own_words() {
    let refusal = serde_json::from_str::<String>("{").unwrap_err();
    let expected = refusal.to_string();
    assert_eq!(CommandError::Json(refusal).message(), expected);
    assert_eq!(
        CommandError::Url(url::ParseError::InvalidPort).message(),
        "invalid port number"
    );
    assert_eq!(
        CommandError::Updater("Could not fetch a valid release JSON from the remote".to_string())
            .message(),
        "Could not fetch a valid release JSON from the remote"
    );
}
