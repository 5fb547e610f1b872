use vstd::prelude::*;
use crate::status::ServerReply;
use crate::outcomes::{UploadOutcome, spec_upload_outcome, upload_outcome};
use crate::metadata::{ThemeLocalMetadata, default_meta_view};

verus! {

// Uploading a theme is a short pipeline with checks between the steps: the
// theme directory must exist, the packed archive must have been written, the
// server must accept the upload; after an accepted upload the theme's local
// metadata is published — the screenshot only when one was ever set — and
// the archive is cleaned up.  As with downloading, the machine holds the
// decisions and the caller performs the actions.

/// What the caller must do next, in order.
#[derive(PartialEq, Eq, Debug)]
pub enum UploadAction {
    /// Pack the theme directory into the working archive file.
    ExportArchive,
    /// Send the archive to the server as the upload request's body.
    SendUpload,
    /// Read the theme's local metadata record.
    LoadLocalMetadata,
    /// Publish this value as the theme's screenshot URL.
    PublishScreenshot(Vec<u8>),
    /// Publish this value as the theme's description.
    PublishDescription(Vec<u8>),
    /// Delete the working archive file.
    RemoveArchive,
}

/// How a finished upload ended.
#[derive(Clone, Copy, PartialEq, Eq, Structural, Debug)]
pub enum UploadEnd {
    /// The theme went up and its metadata was pushed after it; `created`
    /// tells a first upload from an update.
    Completed { created: bool },
    /// No theme directory of that name exists locally.
    NoSuchTheme,
    /// Packing finished but the archive file is not there.
    ArchiveMissing,
    /// The theme exists on the server and belongs to someone else.
    NotOwner,
    /// The upload request never completed.
    TransportFailed,
    /// The upload came back with an unexpected code.
    Failed(u16),
}

/// Where the upload stands between two events.
#[derive(Clone, Copy, PartialEq, Eq, Structural, Debug)]
pub enum UploadState {
    /// The check for the theme directory is out.
    AwaitThemeCheck,
    /// The archive was packed and the check for the file is out.
    AwaitArchiveCheck,
    /// The upload request is out.
    AwaitReply,
    /// The upload was accepted and the local metadata read is out.
    AwaitLocalMetadata { created: bool },
    /// Nothing is left to do.
    Done(UploadEnd),
}

/// What the caller observed since the last step.
#[derive(PartialEq, Eq, Debug)]
pub enum UploadEvent {
    /// Whether the theme directory exists under the themes root.
    ThemeExists(bool),
    /// Whether the packed archive file exists.
    ArchiveWritten(bool),
    /// The upload request finished.
    Reply(ServerReply),
    /// The theme's local metadata record.
    LocalMetadata(ThemeLocalMetadata),
}

/// The state the machine moves to on an event.
pub open spec fn spec_upload_step_state(s: UploadState, ev: UploadEvent) -> UploadState {
    match (s, ev) {
        (UploadState::AwaitThemeCheck, UploadEvent::ThemeExists(e)) => if e {
            UploadState::AwaitArchiveCheck
        } else {
            UploadState::Done(UploadEnd::NoSuchTheme)
        },
        (UploadState::AwaitArchiveCheck, UploadEvent::ArchiveWritten(w)) => if w {
            UploadState::AwaitReply
        } else {
            UploadState::Done(UploadEnd::ArchiveMissing)
        },
        (UploadState::AwaitReply, UploadEvent::Reply(reply)) => match spec_upload_outcome(reply) {
            UploadOutcome::Created => UploadState::AwaitLocalMetadata { created: true },
            UploadOutcome::Updated => UploadState::AwaitLocalMetadata { created: false },
            UploadOutcome::NotOwner => UploadState::Done(UploadEnd::NotOwner),
            UploadOutcome::ServerError(code) => UploadState::Done(UploadEnd::Failed(code)),
            UploadOutcome::Transport => UploadState::Done(UploadEnd::TransportFailed),
        },
        (UploadState::AwaitLocalMetadata { created }, UploadEvent::LocalMetadata(_)) =>
            UploadState::Done(UploadEnd::Completed { created }),
        _ => s,
    }
}

/// The publishing actions an accepted upload calls for: the screenshot only
/// when it differs from the sentinel, the description always, then the
/// archive clean-up.
pub open spec fn spec_publish_actions(meta: ThemeLocalMetadata) -> Seq<UploadAction> {
    let rest = seq![
        UploadAction::PublishDescription(meta.description),
        UploadAction::RemoveArchive,
    ];
    if meta@.screenshot == default_meta_view().screenshot {
        rest
    } else {
        seq![UploadAction::PublishScreenshot(meta.screenshot)] + rest
    }
}

/// The actions one event calls for, given where the machine stands.
pub open spec fn spec_upload_step_actions(s: UploadState, ev: UploadEvent) -> Seq<UploadAction> {
    match (s, ev) {
        (UploadState::AwaitThemeCheck, UploadEvent::ThemeExists(e)) => if e {
            seq![UploadAction::ExportArchive]
        } else {
            Seq::empty()
        },
        (UploadState::AwaitArchiveCheck, UploadEvent::ArchiveWritten(w)) => if w {
            seq![UploadAction::SendUpload]
        } else {
            Seq::empty()
        },
        (UploadState::AwaitReply, UploadEvent::Reply(reply)) => match spec_upload_outcome(reply) {
            UploadOutcome::Created => seq![UploadAction::LoadLocalMetadata],
            UploadOutcome::Updated => seq![UploadAction::LoadLocalMetadata],
            _ => Seq::empty(),
        },
        (UploadState::AwaitLocalMetadata { .. }, UploadEvent::LocalMetadata(meta)) =>
            spec_publish_actions(meta),
        _ => Seq::empty(),
    }
}

/// One upload in progress.
#[derive(Clone, Copy, PartialEq, Eq, Structural, Debug)]
pub struct UploadMachine {
    pub state: UploadState,
}

impl UploadMachine {
    /// A fresh upload, about to check for the theme directory.
    pub fn start() -> (r: UploadMachine)
        ensures
            r.state == UploadState::AwaitThemeCheck,
    {
        UploadMachine { state: UploadState::AwaitThemeCheck }
    }

    /// Feeds one event in; the machine moves on and hands back the actions
    /// the caller must perform, in order.
    pub fn step(self, event: UploadEvent) -> (r: (UploadMachine, Vec<UploadAction>))
        ensures
            r.0.state == spec_upload_step_state(self.state, event),
            r.1@ == spec_upload_step_actions(self.state, event),
    {
        let mut actions: Vec<UploadAction> = Vec::new();
        let next: UploadState = match (self.state, event) {
            (UploadState::AwaitThemeCheck, UploadEvent::ThemeExists(e)) => {
                if e {
                    actions.push(UploadAction::ExportArchive);
                    proof {
                        assert(actions@ =~= seq![UploadAction::ExportArchive]);
                    }
                    UploadState::AwaitArchiveCheck
                } else {
                    UploadState::Done(UploadEnd::NoSuchTheme)
                }
            },
            (UploadState::AwaitArchiveCheck, UploadEvent::ArchiveWritten(w)) => {
                if w {
                    actions.push(UploadAction::SendUpload);
                    proof {
                        assert(actions@ =~= seq![UploadAction::SendUpload]);
                    }
                    UploadState::AwaitReply
                } else {
                    UploadState::Done(UploadEnd::ArchiveMissing)
                }
            },
            (UploadState::AwaitReply, UploadEvent::Reply(reply)) => {
                match upload_outcome(&reply) {
                    UploadOutcome::Created => {
                        actions.push(UploadAction::LoadLocalMetadata);
                        proof {
                            assert(actions@ =~= seq![UploadAction::LoadLocalMetadata]);
                        }
                        UploadState::AwaitLocalMetadata { created: true }
                    },
                    UploadOutcome::Updated => {
                        actions.push(UploadAction::LoadLocalMetadata);
                        proof {
                            assert(actions@ =~= seq![UploadAction::LoadLocalMetadata]);
                        }
                        UploadState::AwaitLocalMetadata { created: false }
                    },
                    UploadOutcome::NotOwner => UploadState::Done(UploadEnd::NotOwner),
                    UploadOutcome::ServerError(code) => UploadState::Done(UploadEnd::Failed(code)),
                    UploadOutcome::Transport => UploadState::Done(UploadEnd::TransportFailed),
                }
            },
            (UploadState::AwaitLocalMetadata { created }, UploadEvent::LocalMetadata(meta)) => {
                let ghost gmeta = meta;
                if meta.screenshot.len() > 0 {
                    actions.push(UploadAction::PublishScreenshot(meta.screenshot));
                } else {
                    proof {
                        assert(meta@.screenshot =~= default_meta_view().screenshot);
                    }
                }
                actions.push(UploadAction::PublishDescription(meta.description));
                actions.push(UploadAction::RemoveArchive);
                proof {
                    if gmeta@.screenshot != default_meta_view().screenshot {
                        assert(actions@ =~= spec_publish_actions(gmeta));
                    } else {
                        assert(actions@ =~= spec_publish_actions(gmeta));
                    }
                }
                UploadState::Done(UploadEnd::Completed { created })
            },
            (state, _) => state,
        };
        (UploadMachine { state: next }, actions)
    }
}

} // verus!
