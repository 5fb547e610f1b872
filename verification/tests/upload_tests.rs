use ravenserver::status::ServerReply;
use ravenserver::metadata::ThemeLocalMetadata;
use ravenserver::upload::{UploadAction, UploadEnd, UploadEvent, UploadMachine, UploadState};

#[test]
fn upload_happy_path_publishes_description_and_cleans_up() {
    let m = UploadMachine::start();
    let (m, actions) = m.step(UploadEvent::ThemeExists(true));
    assert_eq!(actions, vec![UploadAction::ExportArchive]);
    assert_eq!(m.state, UploadState::AwaitArchiveCheck);

    let (m, actions) = m.step(UploadEvent::ArchiveWritten(true));
    assert_eq!(actions, vec![UploadAction::SendUpload]);
    assert_eq!(m.state, UploadState::AwaitReply);

    let (m, actions) = m.step(UploadEvent::Reply(ServerReply::Status(201)));
    assert_eq!(actions, vec![UploadAction::LoadLocalMetadata]);
    assert_eq!(m.state, UploadState::AwaitLocalMetadata { created: true });

    // No screenshot was ever set, so only the description is published.
    let meta = ThemeLocalMetadata { screenshot: Vec::new(), description: b"desc".to_vec() };
    let (m, actions) = m.step(UploadEvent::LocalMetadata(meta));
    assert_eq!(
        actions,
        vec![
            UploadAction::PublishDescription(b"desc".to_vec()),
            UploadAction::RemoveArchive,
        ]
    );
    assert_eq!(m.state, UploadState::Done(UploadEnd::Completed { created: true }));
}

#[test]
fn upload_with_screenshot_publishes_it_first() {
    let m = UploadMachine::start();
    let (m, _) = m.step(UploadEvent::ThemeExists(true));
    let (m, _) = m.step(UploadEvent::ArchiveWritten(true));
    // A plain 200 means an existing theme was updated.
    let (m, _) = m.step(UploadEvent::Reply(ServerReply::Status(200)));
    assert_eq!(m.state, UploadState::AwaitLocalMetadata { created: false });

    let meta = ThemeLocalMetadata { screenshot: b"shot".to_vec(), description: b"desc".to_vec() };
    let (m, actions) = m.step(UploadEvent::LocalMetadata(meta));
    assert_eq!(
        actions,
        vec![
            UploadAction::PublishScreenshot(b"shot".to_vec()),
            UploadAction::PublishDescription(b"desc".to_vec()),
            UploadAction::RemoveArchive,
        ]
    );
    assert_eq!(m.state, UploadState::Done(UploadEnd::Completed { created: false }));
}

#[test]
fn missing_theme_directory_stops_the_upload() {
    let m = UploadMachine::start();
    let (m, actions) = m.step(UploadEvent::ThemeExists(false));
    assert!(actions.is_empty());
    assert_eq!(m.state, UploadState::Done(UploadEnd::NoSuchTheme));
}

#[test]
fn missing_archive_file_stops_the_upload() {
    let m = UploadMachine::start();
    let (m, _) = m.step(UploadEvent::ThemeExists(true));
    let (m, actions) = m.step(UploadEvent::ArchiveWritten(false));
    assert!(actions.is_empty());
    assert_eq!(m.state, UploadState::Done(UploadEnd::ArchiveMissing));
}

#[test]
fn foreign_theme_upload_is_refused() {
    let m = UploadMachine::start();
    let (m, _) = m.step(UploadEvent::ThemeExists(true));
    let (m, _) = m.step(UploadEvent::ArchiveWritten(true));
    let (m, actions) = m.step(UploadEvent::Reply(ServerReply::Status(403)));
    assert!(actions.is_empty());
    assert_eq!(m.state, UploadState::Done(UploadEnd::NotOwner));
}

#[test]
fn upload_transport_failure_is_reported() {
    let m = UploadMachine::start();
    let (m, _) = m.step(UploadEvent::ThemeExists(true));
    let (m, _) = m.step(UploadEvent::ArchiveWritten(true));
    let (m, actions) = m.step(UploadEvent::Reply(ServerReply::TransportFailure));
    assert!(actions.is_empty());
    assert_eq!(m.state, UploadState::Done(UploadEnd::TransportFailed));
}
