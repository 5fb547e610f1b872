use vstd::prelude::*;
use crate::status::{ServerReply, is_success, code_is_success};

verus! {

// Each operation of the remote service signals its result through the HTTP
// status code alone.  The functions below are the single place where a code
// is turned into a semantic outcome; every listed code maps to exactly one
// variant, every unlisted non-success code collapses to `ServerError`, and a
// transport-level failure (no response at all) is kept apart from them all.

/// Outcome of asking the server to create an account.
#[derive(Clone, Copy, PartialEq, Eq, Structural, Debug)]
pub enum CreateUserOutcome {
    /// Any 2xx code: the account now exists.
    Created,
    /// 403: the name is already taken.
    NameTaken,
    /// 413: the name or the password is too long.
    NameOrPasswordTooLong,
    /// Any other code.
    ServerError(u16),
    /// The request never completed.
    Transport,
}

pub open spec fn spec_create_user_outcome(reply: ServerReply) -> CreateUserOutcome {
    match reply {
        ServerReply::TransportFailure => CreateUserOutcome::Transport,
        ServerReply::Status(code) => if is_success(code) {
            CreateUserOutcome::Created
        } else if code == 403 {
            CreateUserOutcome::NameTaken
        } else if code == 413 {
            CreateUserOutcome::NameOrPasswordTooLong
        } else {
            CreateUserOutcome::ServerError(code)
        },
    }
}

pub fn create_user_outcome(reply: &ServerReply) -> (r: CreateUserOutcome)
    ensures
        r == spec_create_user_outcome(*reply),
{
    match reply {
        ServerReply::TransportFailure => CreateUserOutcome::Transport,
        ServerReply::Status(code) => {
            let c = *code;
            if code_is_success(c) {
                CreateUserOutcome::Created
            } else if c == 403 {
                CreateUserOutcome::NameTaken
            } else if c == 413 {
                CreateUserOutcome::NameOrPasswordTooLong
            } else {
                CreateUserOutcome::ServerError(c)
            }
        },
    }
}

/// Outcome of a login attempt, before the response body is read.
#[derive(Clone, Copy, PartialEq, Eq, Structural, Debug)]
pub enum LoginOutcome {
    /// Any 2xx code: the credentials were accepted.
    Accepted,
    /// 403: wrong name or password.
    BadCredentials,
    /// Any other code.
    ServerError(u16),
    /// The request never completed.
    Transport,
}

pub open spec fn spec_login_outcome(reply: ServerReply) -> LoginOutcome {
    match reply {
        ServerReply::TransportFailure => LoginOutcome::Transport,
        ServerReply::Status(code) => if is_success(code) {
            LoginOutcome::Accepted
        } else if code == 403 {
            LoginOutcome::BadCredentials
        } else {
            LoginOutcome::ServerError(code)
        },
    }
}

pub fn login_outcome(reply: &ServerReply) -> (r: LoginOutcome)
    ensures
        r == spec_login_outcome(*reply),
{
    match reply {
        ServerReply::TransportFailure => LoginOutcome::Transport,
        ServerReply::Status(code) => {
            let c = *code;
            if code_is_success(c) {
                LoginOutcome::Accepted
            } else if c == 403 {
                LoginOutcome::BadCredentials
            } else {
                LoginOutcome::ServerError(c)
            }
        },
    }
}

/// Outcome of asking the server to delete the logged-in account.
#[derive(Clone, Copy, PartialEq, Eq, Structural, Debug)]
pub enum DeleteUserOutcome {
    /// Any 2xx code: the account and its themes are gone.
    Deleted,
    /// 403: the named account is not the one authenticated.
    IdentityMismatch,
    /// 401: the token is missing or invalid.
    Unauthorized,
    /// 404: no such account.
    UserNotFound,
    /// Any other code.
    ServerError(u16),
    /// The request never completed.
    Transport,
}

pub open spec fn spec_delete_user_outcome(reply: ServerReply) -> DeleteUserOutcome {
    match reply {
        ServerReply::TransportFailure => DeleteUserOutcome::Transport,
        ServerReply::Status(code) => if is_success(code) {
            DeleteUserOutcome::Deleted
        } else if code == 403 {
            DeleteUserOutcome::IdentityMismatch
        } else if code == 401 {
            DeleteUserOutcome::Unauthorized
        } else if code == 404 {
            DeleteUserOutcome::UserNotFound
        } else {
            DeleteUserOutcome::ServerError(code)
        },
    }
}

pub fn delete_user_outcome(reply: &ServerReply) -> (r: DeleteUserOutcome)
    ensures
        r == spec_delete_user_outcome(*reply),
{
    match reply {
        ServerReply::TransportFailure => DeleteUserOutcome::Transport,
        ServerReply::Status(code) => {
            let c = *code;
            if code_is_success(c) {
                DeleteUserOutcome::Deleted
            } else if c == 403 {
                DeleteUserOutcome::IdentityMismatch
            } else if c == 401 {
                DeleteUserOutcome::Unauthorized
            } else if c == 404 {
                DeleteUserOutcome::UserNotFound
            } else {
                DeleteUserOutcome::ServerError(c)
            }
        },
    }
}

/// Whether the logged-in user must clear the stored session after a delete:
/// only a successful deletion invalidates the local credentials.
pub fn delete_user_clears_session(outcome: &DeleteUserOutcome) -> (r: bool)
    ensures
        r == (*outcome == DeleteUserOutcome::Deleted),
{
    match outcome {
        DeleteUserOutcome::Deleted => true,
        _ => false,
    }
}

/// Outcome of uploading a theme archive.
#[derive(Clone, Copy, PartialEq, Eq, Structural, Debug)]
pub enum UploadOutcome {
    /// 201: the theme is new on the server.
    Created,
    /// Any other 2xx code: an existing theme of ours was replaced.
    Updated,
    /// 403: the theme exists and belongs to someone else.
    NotOwner,
    /// Any other code.
    ServerError(u16),
    /// The request never completed.
    Transport,
}

pub open spec fn spec_upload_outcome(reply: ServerReply) -> UploadOutcome {
    match reply {
        ServerReply::TransportFailure => UploadOutcome::Transport,
        ServerReply::Status(code) => if code == 201 {
            UploadOutcome::Created
        } else if is_success(code) {
            UploadOutcome::Updated
        } else if code == 403 {
            UploadOutcome::NotOwner
        } else {
            UploadOutcome::ServerError(code)
        },
    }
}

pub fn upload_outcome(reply: &ServerReply) -> (r: UploadOutcome)
    ensures
        r == spec_upload_outcome(*reply),
{
    match reply {
        ServerReply::TransportFailure => UploadOutcome::Transport,
        ServerReply::Status(code) => {
            let c = *code;
            if c == 201 {
                UploadOutcome::Created
            } else if code_is_success(c) {
                UploadOutcome::Updated
            } else if c == 403 {
                UploadOutcome::NotOwner
            } else {
                UploadOutcome::ServerError(c)
            }
        },
    }
}

/// Outcome of requesting a theme archive.  208 is the server's signal for a
/// theme that was reported and not yet reviewed: the body still carries the
/// archive, but installing it needs confirmation.
#[derive(Clone, Copy, PartialEq, Eq, Structural, Debug)]
pub enum DownloadOutcome {
    /// A 2xx code other than 208: an unflagged archive arrived.
    Approved,
    /// 208: the archive arrived but the theme is flagged.
    Flagged,
    /// 404: the theme was never uploaded.
    NotUploaded,
    /// Any other code.
    ServerError(u16),
    /// The request never completed.
    Transport,
}

pub open spec fn spec_download_outcome(reply: ServerReply) -> DownloadOutcome {
    match reply {
        ServerReply::TransportFailure => DownloadOutcome::Transport,
        ServerReply::Status(code) => if code == 208 {
            DownloadOutcome::Flagged
        } else if is_success(code) {
            DownloadOutcome::Approved
        } else if code == 404 {
            DownloadOutcome::NotUploaded
        } else {
            DownloadOutcome::ServerError(code)
        },
    }
}

pub fn download_outcome(reply: &ServerReply) -> (r: DownloadOutcome)
    ensures
        r == spec_download_outcome(*reply),
{
    match reply {
        ServerReply::TransportFailure => DownloadOutcome::Transport,
        ServerReply::Status(code) => {
            let c = *code;
            if c == 208 {
                DownloadOutcome::Flagged
            } else if code_is_success(c) {
                DownloadOutcome::Approved
            } else if c == 404 {
                DownloadOutcome::NotUploaded
            } else {
                DownloadOutcome::ServerError(c)
            }
        },
    }
}

/// Outcome of publishing one metadata field of an uploaded theme.
#[derive(Clone, Copy, PartialEq, Eq, Structural, Debug)]
pub enum PublishMetadataOutcome {
    /// Any 2xx code: the field was stored.
    Updated,
    /// 404: the theme has not been published.
    NotPublished,
    /// 403: the theme belongs to someone else.
    NotOwner,
    /// 412: the field name is not a known metadata kind.
    InvalidKind,
    /// 413: the value exceeds the server's length limit.
    ValueTooLong,
    /// Any other code.
    ServerError(u16),
    /// The request never completed.
    Transport,
}

pub open spec fn spec_publish_metadata_outcome(reply: ServerReply) -> PublishMetadataOutcome {
    match reply {
        ServerReply::TransportFailure => PublishMetadataOutcome::Transport,
        ServerReply::Status(code) => if is_success(code) {
            PublishMetadataOutcome::Updated
        } else if code == 404 {
            PublishMetadataOutcome::NotPublished
        } else if code == 403 {
            PublishMetadataOutcome::NotOwner
        } else if code == 412 {
            PublishMetadataOutcome::InvalidKind
        } else if code == 413 {
            PublishMetadataOutcome::ValueTooLong
        } else {
            PublishMetadataOutcome::ServerError(code)
        },
    }
}

pub fn publish_metadata_outcome(reply: &ServerReply) -> (r: PublishMetadataOutcome)
    ensures
        r == spec_publish_metadata_outcome(*reply),
{
    match reply {
        ServerReply::TransportFailure => PublishMetadataOutcome::Transport,
        ServerReply::Status(code) => {
            let c = *code;
            if code_is_success(c) {
                PublishMetadataOutcome::Updated
            } else if c == 404 {
                PublishMetadataOutcome::NotPublished
            } else if c == 403 {
                PublishMetadataOutcome::NotOwner
            } else if c == 412 {
                PublishMetadataOutcome::InvalidKind
            } else if c == 413 {
                PublishMetadataOutcome::ValueTooLong
            } else {
                PublishMetadataOutcome::ServerError(c)
            }
        },
    }
}

/// Outcome of withdrawing a published theme.
#[derive(Clone, Copy, PartialEq, Eq, Structural, Debug)]
pub enum UnpublishOutcome {
    /// Any 2xx code: the theme is no longer published.
    Unpublished,
    /// 404: no such published theme.
    Nonexistent,
    /// 403: the theme belongs to someone else.
    NotOwner,
    /// 401: the token is missing or invalid.
    Unauthorized,
    /// Any other code.
    ServerError(u16),
    /// The request never completed.
    Transport,
}

pub open spec fn spec_unpublish_outcome(reply: ServerReply) -> UnpublishOutcome {
    match reply {
        ServerReply::TransportFailure => UnpublishOutcome::Transport,
        ServerReply::Status(code) => if is_success(code) {
            UnpublishOutcome::Unpublished
        } else if code == 404 {
            UnpublishOutcome::Nonexistent
        } else if code == 403 {
            UnpublishOutcome::NotOwner
        } else if code == 401 {
            UnpublishOutcome::Unauthorized
        } else {
            UnpublishOutcome::ServerError(code)
        },
    }
}

pub fn unpublish_outcome(reply: &ServerReply) -> (r: UnpublishOutcome)
    ensures
        r == spec_unpublish_outcome(*reply),
{
    match reply {
        ServerReply::TransportFailure => UnpublishOutcome::Transport,
        ServerReply::Status(code) => {
            let c = *code;
            if code_is_success(c) {
                UnpublishOutcome::Unpublished
            } else if c == 404 {
                UnpublishOutcome::Nonexistent
            } else if c == 403 {
                UnpublishOutcome::NotOwner
            } else if c == 401 {
                UnpublishOutcome::Unauthorized
            } else {
                UnpublishOutcome::ServerError(c)
            }
        },
    }
}

/// Outcome of fetching a theme's published metadata, before the body is read.
#[derive(Clone, Copy, PartialEq, Eq, Structural, Debug)]
pub enum GetMetadataOutcome {
    /// Any 2xx code: the body carries the metadata record.
    Found,
    /// 404: the theme is not on the server.
    ThemeNotFound,
    /// Any other code.
    ServerError(u16),
    /// The request never completed.
    Transport,
}

pub open spec fn spec_get_metadata_outcome(reply: ServerReply) -> GetMetadataOutcome {
    match reply {
        ServerReply::TransportFailure => GetMetadataOutcome::Transport,
        ServerReply::Status(code) => if is_success(code) {
            GetMetadataOutcome::Found
        } else if code == 404 {
            GetMetadataOutcome::ThemeNotFound
        } else {
            GetMetadataOutcome::ServerError(code)
        },
    }
}

pub fn get_metadata_outcome(reply: &ServerReply) -> (r: GetMetadataOutcome)
    ensures
        r == spec_get_metadata_outcome(*reply),
{
    match reply {
        ServerReply::TransportFailure => GetMetadataOutcome::Transport,
        ServerReply::Status(code) => {
            let c = *code;
            if code_is_success(c) {
                GetMetadataOutcome::Found
            } else if c == 404 {
                GetMetadataOutcome::ThemeNotFound
            } else {
                GetMetadataOutcome::ServerError(c)
            }
        },
    }
}

} // verus!
