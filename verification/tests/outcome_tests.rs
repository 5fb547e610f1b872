use ravenserver::status::ServerReply;
use ravenserver::outcomes::{
    CreateUserOutcome, DeleteUserOutcome, DownloadOutcome, GetMetadataOutcome, LoginOutcome,
    PublishMetadataOutcome, UnpublishOutcome, UploadOutcome, create_user_outcome,
    delete_user_clears_session, delete_user_outcome, download_outcome, get_metadata_outcome,
    login_outcome, publish_metadata_outcome, unpublish_outcome, upload_outcome,
};

fn status(code: u16) -> ServerReply {
    ServerReply::Status(code)
}

#[test]
fn create_user_codes_map_per_table() {
    assert_eq!(create_user_outcome(&status(200)), CreateUserOutcome::Created);
    assert_eq!(create_user_outcome(&status(201)), CreateUserOutcome::Created);
    assert_eq!(create_user_outcome(&status(299)), CreateUserOutcome::Created);
    assert_eq!(create_user_outcome(&status(403)), CreateUserOutcome::NameTaken);
    assert_eq!(create_user_outcome(&status(413)), CreateUserOutcome::NameOrPasswordTooLong);
    assert_eq!(create_user_outcome(&status(500)), CreateUserOutcome::ServerError(500));
    assert_eq!(create_user_outcome(&status(404)), CreateUserOutcome::ServerError(404));
    assert_eq!(
        create_user_outcome(&ServerReply::TransportFailure),
        CreateUserOutcome::Transport
    );
}

#[test]
fn login_codes_map_per_table() {
    assert_eq!(login_outcome(&status(200)), LoginOutcome::Accepted);
    assert_eq!(login_outcome(&status(403)), LoginOutcome::BadCredentials);
    assert_eq!(login_outcome(&status(404)), LoginOutcome::ServerError(404));
    assert_eq!(login_outcome(&ServerReply::TransportFailure), LoginOutcome::Transport);
}

#[test]
fn delete_user_codes_map_per_table() {
    assert_eq!(delete_user_outcome(&status(204)), DeleteUserOutcome::Deleted);
    assert_eq!(delete_user_outcome(&status(403)), DeleteUserOutcome::IdentityMismatch);
    assert_eq!(delete_user_outcome(&status(401)), DeleteUserOutcome::Unauthorized);
    assert_eq!(delete_user_outcome(&status(404)), DeleteUserOutcome::UserNotFound);
    assert_eq!(delete_user_outcome(&status(418)), DeleteUserOutcome::ServerError(418));
    assert_eq!(
        delete_user_outcome(&ServerReply::TransportFailure),
        DeleteUserOutcome::Transport
    );
}

#[test]
fn only_a_successful_delete_clears_the_session() {
    assert!(delete_user_clears_session(&DeleteUserOutcome::Deleted));
    assert!(!delete_user_clears_session(&DeleteUserOutcome::IdentityMismatch));
    assert!(!delete_user_clears_session(&DeleteUserOutcome::Unauthorized));
    assert!(!delete_user_clears_session(&DeleteUserOutcome::UserNotFound));
    assert!(!delete_user_clears_session(&DeleteUserOutcome::ServerError(500)));
    assert!(!delete_user_clears_session(&DeleteUserOutcome::Transport));
}

#[test]
fn upload_codes_map_per_table() {
    assert_eq!(upload_outcome(&status(201)), UploadOutcome::Created);
    assert_eq!(upload_outcome(&status(200)), UploadOutcome::Updated);
    assert_eq!(upload_outcome(&status(208)), UploadOutcome::Updated);
    assert_eq!(upload_outcome(&status(403)), UploadOutcome::NotOwner);
    assert_eq!(upload_outcome(&status(500)), UploadOutcome::ServerError(500));
    assert_eq!(upload_outcome(&ServerReply::TransportFailure), UploadOutcome::Transport);
}

#[test]
fn download_codes_map_per_table() {
    assert_eq!(download_outcome(&status(200)), DownloadOutcome::Approved);
    assert_eq!(download_outcome(&status(208)), DownloadOutcome::Flagged);
    assert_eq!(download_outcome(&status(404)), DownloadOutcome::NotUploaded);
    assert_eq!(download_outcome(&status(500)), DownloadOutcome::ServerError(500));
    assert_eq!(download_outcome(&ServerReply::TransportFailure), DownloadOutcome::Transport);
}

#[test]
fn publish_metadata_codes_map_per_table() {
    assert_eq!(publish_metadata_outcome(&status(200)), PublishMetadataOutcome::Updated);
    assert_eq!(publish_metadata_outcome(&status(404)), PublishMetadataOutcome::NotPublished);
    assert_eq!(publish_metadata_outcome(&status(403)), PublishMetadataOutcome::NotOwner);
    assert_eq!(publish_metadata_outcome(&status(412)), PublishMetadataOutcome::InvalidKind);
    assert_eq!(publish_metadata_outcome(&status(413)), PublishMetadataOutcome::ValueTooLong);
    assert_eq!(
        publish_metadata_outcome(&status(500)),
        PublishMetadataOutcome::ServerError(500)
    );
    assert_eq!(
        publish_metadata_outcome(&ServerReply::TransportFailure),
        PublishMetadataOutcome::Transport
    );
}

#[test]
fn unpublish_codes_map_per_table() {
    assert_eq!(unpublish_outcome(&status(200)), UnpublishOutcome::Unpublished);
    assert_eq!(unpublish_outcome(&status(404)), UnpublishOutcome::Nonexistent);
    assert_eq!(unpublish_outcome(&status(403)), UnpublishOutcome::NotOwner);
    assert_eq!(unpublish_outcome(&status(401)), UnpublishOutcome::Unauthorized);
    assert_eq!(unpublish_outcome(&status(503)), UnpublishOutcome::ServerError(503));
    assert_eq!(
        unpublish_outcome(&ServerReply::TransportFailure),
        UnpublishOutcome::Transport
    );
}

#[test]
fn get_metadata_codes_map_per_table() {
    assert_eq!(get_metadata_outcome(&status(200)), GetMetadataOutcome::Found);
    assert_eq!(get_metadata_outcome(&status(404)), GetMetadataOutcome::ThemeNotFound);
    assert_eq!(get_metadata_outcome(&status(500)), GetMetadataOutcome::ServerError(500));
    assert_eq!(
        get_metadata_outcome(&ServerReply::TransportFailure),
        GetMetadataOutcome::Transport
    );
}
