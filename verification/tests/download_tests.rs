use ravenserver::status::ServerReply;
use ravenserver::download::{
    answer_is_yes, DownloadAction, DownloadEnd, DownloadEvent, DownloadMachine, DownloadState,
};
use ravenserver::metadata::MetaRes;
use ravenserver::ops::{create_user_request, get_metadata_result, CreateUserLocalError,
    GetMetadataError};

#[test]
fn console_answers_accept_only_a_trimmed_y() {
    assert!(answer_is_yes(&b"y".to_vec()));
    assert!(answer_is_yes(&b"y\n".to_vec()));
    assert!(answer_is_yes(&b" y \r\n".to_vec()));
    assert!(!answer_is_yes(&b"n".to_vec()));
    assert!(!answer_is_yes(&b"".to_vec()));
    assert!(!answer_is_yes(&b"  ".to_vec()));
    assert!(!answer_is_yes(&b"yes".to_vec()));
    assert!(!answer_is_yes(&b"Y".to_vec()));
}

#[test]
fn mismatched_passwords_fail_before_any_request_exists() {
    // createUser("alice", "pw", "pw2") never reaches the network.
    let r = create_user_request(b"alice".to_vec(), b"pw".to_vec(), b"pw2".to_vec());
    assert_eq!(r, Err(CreateUserLocalError::PasswordMismatch));
}

#[test]
fn missing_theme_metadata_is_a_not_found_error() {
    // getMetadata("missing") with a 404 reply mutates nothing and names the
    // theme as not found.
    let r = get_metadata_result(&ServerReply::Status(404), None);
    assert_eq!(r, Err(GetMetadataError::ThemeNotFound));
}

#[test]
fn declined_flagged_download_removes_archive_and_stops() {
    // downloadTheme("foo", force = false), server flags the theme, console
    // answers "n": the archive is deleted, nothing is unpacked, no metadata
    // request goes out.
    let m = DownloadMachine::start(false);
    let (m, actions) = m.step(DownloadEvent::Reply(ServerReply::Status(208)));
    assert_eq!(actions, vec![DownloadAction::SaveArchive, DownloadAction::PromptUser]);
    assert_eq!(m.state, DownloadState::AwaitAnswer);

    let (m, actions) = m.step(DownloadEvent::Answer(b"n\n".to_vec()));
    assert_eq!(actions, vec![DownloadAction::RemoveArchive]);
    assert_eq!(m.state, DownloadState::Done(DownloadEnd::Declined));
    assert!(!actions.contains(&DownloadAction::UnpackArchive));
    assert!(!actions.contains(&DownloadAction::FetchMetadata));
}

#[test]
fn accepted_flagged_download_unpacks_and_fetches_metadata() {
    let m = DownloadMachine::start(false);
    let (m, _) = m.step(DownloadEvent::Reply(ServerReply::Status(208)));
    let (m, actions) = m.step(DownloadEvent::Answer(b" y\n".to_vec()));
    assert_eq!(
        actions,
        vec![
            DownloadAction::UnpackArchive,
            DownloadAction::RemoveArchive,
            DownloadAction::FetchMetadata,
        ]
    );
    assert_eq!(m.state, DownloadState::AwaitMetadata);
}

#[test]
fn forced_flagged_download_skips_the_prompt() {
    // downloadTheme("bar", force = true), server flags the theme: no prompt,
    // the theme is unpacked, and the hook check runs with force in effect.
    let m = DownloadMachine::start(true);
    let (m, actions) = m.step(DownloadEvent::Reply(ServerReply::Status(208)));
    assert_eq!(
        actions,
        vec![
            DownloadAction::SaveArchive,
            DownloadAction::ForcedContinueNote,
            DownloadAction::UnpackArchive,
            DownloadAction::RemoveArchive,
            DownloadAction::FetchMetadata,
        ]
    );
    assert!(!actions.contains(&DownloadAction::PromptUser));
    assert_eq!(m.state, DownloadState::AwaitMetadata);

    let rec = MetaRes { screen: b"s".to_vec(), description: b"d".to_vec() };
    let (m, actions) = m.step(DownloadEvent::Metadata(ServerReply::Status(200), Some(rec)));
    assert_eq!(actions.len(), 2);
    assert!(matches!(actions[0], DownloadAction::SaveThemeMetadata(_)));
    assert_eq!(actions[1], DownloadAction::CheckHooks);
    assert_eq!(m.state, DownloadState::AwaitHooks);

    // A hook is present, but force also silences the warning.
    let (m, actions) = m.step(DownloadEvent::Hooks(true));
    assert!(actions.is_empty());
    assert_eq!(m.state, DownloadState::Done(DownloadEnd::Installed));
}

#[test]
fn unforced_download_warns_escalated_on_hooks() {
    let m = DownloadMachine::start(false);
    let (m, actions) = m.step(DownloadEvent::Reply(ServerReply::Status(200)));
    assert_eq!(
        actions,
        vec![
            DownloadAction::SaveArchive,
            DownloadAction::UnpackArchive,
            DownloadAction::RemoveArchive,
            DownloadAction::FetchMetadata,
        ]
    );
    let rec = MetaRes { screen: b"s".to_vec(), description: b"d".to_vec() };
    let (m, _) = m.step(DownloadEvent::Metadata(ServerReply::Status(200), Some(rec)));
    let (m, actions) = m.step(DownloadEvent::Hooks(true));
    assert_eq!(actions, vec![DownloadAction::Warn { escalated: true }]);
    assert_eq!(m.state, DownloadState::Done(DownloadEnd::Installed));

    let m2 = DownloadMachine::start(false);
    let (m2, _) = m2.step(DownloadEvent::Reply(ServerReply::Status(200)));
    let rec = MetaRes { screen: b"s".to_vec(), description: b"d".to_vec() };
    let (m2, _) = m2.step(DownloadEvent::Metadata(ServerReply::Status(200), Some(rec)));
    let (_, actions) = m2.step(DownloadEvent::Hooks(false));
    assert_eq!(actions, vec![DownloadAction::Warn { escalated: false }]);
    let _ = m;
}

#[test]
fn missing_theme_ends_the_download() {
    let m = DownloadMachine::start(false);
    let (m, actions) = m.step(DownloadEvent::Reply(ServerReply::Status(404)));
    assert!(actions.is_empty());
    assert_eq!(m.state, DownloadState::Done(DownloadEnd::NotUploaded));
}

#[test]
fn transport_failure_ends_the_download() {
    let m = DownloadMachine::start(false);
    let (m, actions) = m.step(DownloadEvent::Reply(ServerReply::TransportFailure));
    assert!(actions.is_empty());
    assert_eq!(m.state, DownloadState::Done(DownloadEnd::TransportFailed));
}

#[test]
fn failed_metadata_fetch_aborts_the_pipeline() {
    let m = DownloadMachine::start(false);
    let (m, _) = m.step(DownloadEvent::Reply(ServerReply::Status(200)));
    let (m, actions) = m.step(DownloadEvent::Metadata(ServerReply::Status(500), None));
    assert!(actions.is_empty());
    assert_eq!(m.state, DownloadState::Done(DownloadEnd::MetadataFailed));
}
