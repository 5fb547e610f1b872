use vstd::prelude::*;
use crate::status::ServerReply;
use crate::outcomes::{DownloadOutcome, GetMetadataOutcome, spec_download_outcome, download_outcome,
    spec_get_metadata_outcome, get_metadata_outcome};
use crate::metadata::{MetaRes, ThemeLocalMetadata};

verus! {

// Downloading a theme is the one operation with real branching: fetch the
// archive, stop on failure, otherwise persist it; ask for confirmation when
// the server flagged the theme and the caller did not force; unpack, clean
// up, fetch and persist the remote metadata; then warn, escalated when the
// unpacked theme carries an executable hook.  The machine below holds those
// decisions; the caller performs each emitted action and feeds the next
// event back in.

/// ASCII whitespace, as far as a console answer is concerned.
pub open spec fn is_ascii_space(b: u8) -> bool {
    b == 32 || b == 9 || b == 10 || b == 13
}

/// The byte string without its leading whitespace.
pub open spec fn trim_front(s: Seq<u8>) -> Seq<u8>
    decreases s.len(),
{
    if s.len() > 0 && is_ascii_space(s.first()) {
        trim_front(s.drop_first())
    } else {
        s
    }
}

/// The byte string without its trailing whitespace.
pub open spec fn trim_back(s: Seq<u8>) -> Seq<u8>
    decreases s.len(),
{
    if s.len() > 0 && is_ascii_space(s.last()) {
        trim_back(s.drop_last())
    } else {
        s
    }
}

/// A console answer accepts the flagged theme exactly when it is `y` once
/// whitespace is stripped from both ends; anything else declines.
pub open spec fn is_affirmative(s: Seq<u8>) -> bool {
    trim_back(trim_front(s)) == seq![121u8]  // 'y'
}

fn byte_is_space(b: u8) -> (r: bool)
    ensures
        r == is_ascii_space(b),
{
    b == 32 || b == 9 || b == 10 || b == 13
}

proof fn lemma_trim_front_skip(s: Seq<u8>, lo: int)
    requires
        0 <= lo < s.len(),
        forall|k: int| 0 <= k < lo ==> is_ascii_space(s[k]),
        !is_ascii_space(s[lo]),
    ensures
        trim_front(s) == s.skip(lo),
    decreases lo,
{
    if lo == 0 {
        assert(s.skip(0) =~= s);
    } else {
        lemma_trim_front_skip(s.drop_first(), lo - 1);
        assert(s.drop_first().skip(lo - 1) =~= s.skip(lo));
    }
}

proof fn lemma_trim_front_all_space(s: Seq<u8>)
    requires
        forall|k: int| 0 <= k < s.len() ==> is_ascii_space(s[k]),
    ensures
        trim_front(s) == Seq::<u8>::empty(),
    decreases s.len(),
{
    if s.len() == 0 {
        assert(s =~= Seq::<u8>::empty());
    } else {
        lemma_trim_front_all_space(s.drop_first());
    }
}

proof fn lemma_trim_back_subrange(s: Seq<u8>, lo: int, hi: int)
    requires
        0 <= lo <= hi <= s.len(),
        forall|k: int| hi <= k < s.len() ==> is_ascii_space(s[k]),
        hi > lo ==> !is_ascii_space(s[hi - 1]),
    ensures
        trim_back(s.skip(lo)) == s.subrange(lo, hi),
    decreases s.len() - hi,
{
    let u = s.skip(lo);
    if hi == s.len() {
        assert(u =~= s.subrange(lo, hi));
        if hi == lo {
            assert(u =~= Seq::<u8>::empty());
        } else {
            assert(u.last() == s[hi - 1]);
        }
    } else {
        assert(u.len() > 0);
        assert(u.last() == s[s.len() - 1]);
        assert(is_ascii_space(u.last()));
        let s2 = s.subrange(0, s.len() - 1);
        assert(u.drop_last() =~= s2.skip(lo));
        lemma_trim_back_subrange(s2, lo, hi);
        assert(s2.subrange(lo, hi) =~= s.subrange(lo, hi));
    }
}

/// Whether a raw console line answers yes: `y` alone up to surrounding
/// whitespace.
pub fn answer_is_yes(ans: &Vec<u8>) -> (r: bool)
    ensures
        r == is_affirmative(ans@),
{
    let n = ans.len();
    let mut lo: usize = 0;
    while lo < n && byte_is_space(ans[lo])
        invariant
            n == ans@.len(),
            lo <= n,
            forall|k: int| 0 <= k < lo ==> is_ascii_space(ans@[k]),
        decreases n - lo,
    {
        lo = lo + 1;
    }
    if lo == n {
        proof {
            lemma_trim_front_all_space(ans@);
            assert(seq![121u8].len() == 1);
        }
        return false;
    }
    proof {
        lemma_trim_front_skip(ans@, lo as int);
    }
    let mut hi: usize = n;
    while hi > lo && byte_is_space(ans[hi - 1])
        invariant
            n == ans@.len(),
            lo <= hi <= n,
            forall|k: int| hi <= k < n ==> is_ascii_space(ans@[k]),
        decreases hi,
    {
        hi = hi - 1;
    }
    proof {
        lemma_trim_back_subrange(ans@, lo as int, hi as int);
    }
    let r = hi - lo == 1 && ans[lo] == 121;
    proof {
        let t = ans@.subrange(lo as int, hi as int);
        if hi - lo == 1 && ans@[lo as int] == 121 {
            assert(t =~= seq![121u8]);
        } else if t == seq![121u8] {
            assert(t.len() == 1);
            assert(t[0] == ans@[lo as int]);
            assert(seq![121u8][0] == 121u8);
        }
    }
    r
}

/// What the caller must do next; it performs each action in order and feeds
/// the resulting event back into the machine.
#[derive(PartialEq, Eq, Debug)]
pub enum DownloadAction {
    /// Write the response body to the working archive file.
    SaveArchive,
    /// Ask on the console whether the flagged theme should be installed.
    PromptUser,
    /// Note that a flagged theme is installed anyway because of force.
    ForcedContinueNote,
    /// Unpack the working archive under the themes root.
    UnpackArchive,
    /// Delete the working archive file.
    RemoveArchive,
    /// Fetch the theme's metadata record from the server.
    FetchMetadata,
    /// Persist this record as the theme's local metadata.
    SaveThemeMetadata(ThemeLocalMetadata),
    /// Look for an executable hook (`script` or `lemonbar`) at the unpacked
    /// theme's root.
    CheckHooks,
    /// Print the safety warning, escalated when a hook is present.
    Warn { escalated: bool },
}

/// How a finished download ended.
#[derive(Clone, Copy, PartialEq, Eq, Structural, Debug)]
pub enum DownloadEnd {
    /// The theme is unpacked and its metadata stored.
    Installed,
    /// The user declined the flagged theme; the archive was removed.
    Declined,
    /// The server does not have the theme.
    NotUploaded,
    /// The metadata fetch after unpacking failed.
    MetadataFailed,
    /// The archive request never completed.
    TransportFailed,
    /// The archive request came back with an unexpected code.
    Failed(u16),
}

/// Where the download stands between two events.
#[derive(Clone, Copy, PartialEq, Eq, Structural, Debug)]
pub enum DownloadState {
    /// The archive request is out.
    AwaitReply,
    /// The archive is saved, the theme is flagged, the prompt is out.
    AwaitAnswer,
    /// The archive is unpacked and the metadata request is out.
    AwaitMetadata,
    /// The metadata is stored and the hook check is out.
    AwaitHooks,
    /// Nothing is left to do.
    Done(DownloadEnd),
}

/// What the caller observed since the last step.
#[derive(PartialEq, Eq, Debug)]
pub enum DownloadEvent {
    /// The archive request finished.
    Reply(ServerReply),
    /// The console answer to the confirmation prompt.
    Answer(Vec<u8>),
    /// The metadata request finished; a record is present on success.
    Metadata(ServerReply, Option<MetaRes>),
    /// Whether an executable hook sits at the unpacked theme's root.
    Hooks(bool),
}

/// One download in progress.
#[derive(Clone, Copy, PartialEq, Eq, Structural, Debug)]
pub struct DownloadMachine {
    /// Skip the confirmation prompt and the final warning.
    pub force: bool,
    pub state: DownloadState,
}

/// The state the machine moves to on an event.
pub open spec fn spec_step_state(m: DownloadMachine, ev: DownloadEvent) -> DownloadState {
    match (m.state, ev) {
        (DownloadState::AwaitReply, DownloadEvent::Reply(reply)) => match spec_download_outcome(
            reply,
        ) {
            DownloadOutcome::Approved => DownloadState::AwaitMetadata,
            DownloadOutcome::Flagged => if m.force {
                DownloadState::AwaitMetadata
            } else {
                DownloadState::AwaitAnswer
            },
            DownloadOutcome::NotUploaded => DownloadState::Done(DownloadEnd::NotUploaded),
            DownloadOutcome::ServerError(code) => DownloadState::Done(DownloadEnd::Failed(code)),
            DownloadOutcome::Transport => DownloadState::Done(DownloadEnd::TransportFailed),
        },
        (DownloadState::AwaitAnswer, DownloadEvent::Answer(ans)) => if is_affirmative(ans@) {
            DownloadState::AwaitMetadata
        } else {
            DownloadState::Done(DownloadEnd::Declined)
        },
        (DownloadState::AwaitMetadata, DownloadEvent::Metadata(reply, meta)) => match (
            spec_get_metadata_outcome(reply),
            meta,
        ) {
            (GetMetadataOutcome::Found, Option::Some(_)) => DownloadState::AwaitHooks,
            _ => DownloadState::Done(DownloadEnd::MetadataFailed),
        },
        (DownloadState::AwaitHooks, DownloadEvent::Hooks(_)) => DownloadState::Done(
            DownloadEnd::Installed,
        ),
        _ => m.state,
    }
}

/// The actions the first reply calls for.
pub open spec fn spec_reply_actions(force: bool, reply: ServerReply) -> Seq<DownloadAction> {
    match spec_download_outcome(reply) {
        DownloadOutcome::Approved => seq![
            DownloadAction::SaveArchive,
            DownloadAction::UnpackArchive,
            DownloadAction::RemoveArchive,
            DownloadAction::FetchMetadata,
        ],
        DownloadOutcome::Flagged => if force {
            seq![
                DownloadAction::SaveArchive,
                DownloadAction::ForcedContinueNote,
                DownloadAction::UnpackArchive,
                DownloadAction::RemoveArchive,
                DownloadAction::FetchMetadata,
            ]
        } else {
            seq![DownloadAction::SaveArchive, DownloadAction::PromptUser]
        },
        _ => Seq::empty(),
    }
}

/// The actions the metadata reply calls for: persist the fetched record and
/// go look for hooks, or stop.
pub open spec fn spec_metadata_actions(reply: ServerReply, meta: Option<MetaRes>) -> Seq<
    DownloadAction,
> {
    match (spec_get_metadata_outcome(reply), meta) {
        (GetMetadataOutcome::Found, Option::Some(rec)) => seq![
            DownloadAction::SaveThemeMetadata(
                ThemeLocalMetadata { screenshot: rec.screen, description: rec.description },
            ),
            DownloadAction::CheckHooks,
        ],
        _ => Seq::empty(),
    }
}

/// The actions the hook check calls for: the warning, unless forced.
pub open spec fn spec_hooks_actions(force: bool, has_hook: bool) -> Seq<DownloadAction> {
    if force {
        Seq::empty()
    } else {
        seq![DownloadAction::Warn { escalated: has_hook }]
    }
}

/// The actions an accepted or declined confirmation calls for.
pub open spec fn spec_answer_actions(ans: Seq<u8>) -> Seq<DownloadAction> {
    if is_affirmative(ans) {
        seq![
            DownloadAction::UnpackArchive,
            DownloadAction::RemoveArchive,
            DownloadAction::FetchMetadata,
        ]
    } else {
        seq![DownloadAction::RemoveArchive]
    }
}

/// With force off, a flagged theme is never unpacked behind the user's back:
/// whenever a step calls for unpacking, either the server's reply was an
/// unflagged success, or the console answered the prompt affirmatively.
pub proof fn lemma_flagged_unpack_needs_consent(m: DownloadMachine, ev: DownloadEvent)
    requires
        !m.force,
        spec_step_actions(m, ev).contains(DownloadAction::UnpackArchive),
    ensures
        m.state == DownloadState::AwaitReply || m.state == DownloadState::AwaitAnswer,
        m.state == DownloadState::AwaitReply ==> (ev matches DownloadEvent::Reply(reply)
            && spec_download_outcome(reply) == DownloadOutcome::Approved),
        m.state == DownloadState::AwaitAnswer ==> (ev matches DownloadEvent::Answer(ans)
            && is_affirmative(ans@)),
{
}

/// The actions one event calls for, given where the machine stands; an event
/// that does not belong to the state calls for nothing.
pub open spec fn spec_step_actions(m: DownloadMachine, ev: DownloadEvent) -> Seq<DownloadAction> {
    match (m.state, ev) {
        (DownloadState::AwaitReply, DownloadEvent::Reply(reply)) => spec_reply_actions(
            m.force,
            reply,
        ),
        (DownloadState::AwaitAnswer, DownloadEvent::Answer(ans)) => spec_answer_actions(ans@),
        (DownloadState::AwaitMetadata, DownloadEvent::Metadata(reply, meta)) =>
            spec_metadata_actions(reply, meta),
        (DownloadState::AwaitHooks, DownloadEvent::Hooks(h)) => spec_hooks_actions(m.force, h),
        _ => Seq::empty(),
    }
}

impl DownloadMachine {
    /// A fresh download, with the archive request already issued.
    pub fn start(force: bool) -> (r: DownloadMachine)
        ensures
            r.force == force,
            r.state == DownloadState::AwaitReply,
    {
        DownloadMachine { force, state: DownloadState::AwaitReply }
    }

    /// Feeds one event in; the machine moves on and hands back the actions
    /// the caller must perform, in order.
    pub fn step(self, event: DownloadEvent) -> (r: (DownloadMachine, Vec<DownloadAction>))
        ensures
            r.0.force == self.force,
            r.0.state == spec_step_state(self, event),
            r.1@ == spec_step_actions(self, event),
    {
        let force = self.force;
        let mut actions: Vec<DownloadAction> = Vec::new();
        let next: DownloadState = match (self.state, event) {
            (DownloadState::AwaitReply, DownloadEvent::Reply(reply)) => {
                match download_outcome(&reply) {
                    DownloadOutcome::Approved => {
                        actions.push(DownloadAction::SaveArchive);
                        actions.push(DownloadAction::UnpackArchive);
                        actions.push(DownloadAction::RemoveArchive);
                        actions.push(DownloadAction::FetchMetadata);
                        proof {
                            assert(actions@ =~= spec_reply_actions(force, reply));
                        }
                        DownloadState::AwaitMetadata
                    },
                    DownloadOutcome::Flagged => {
                        actions.push(DownloadAction::SaveArchive);
                        if force {
                            actions.push(DownloadAction::ForcedContinueNote);
                            actions.push(DownloadAction::UnpackArchive);
                            actions.push(DownloadAction::RemoveArchive);
                            actions.push(DownloadAction::FetchMetadata);
                            proof {
                                assert(actions@ =~= spec_reply_actions(force, reply));
                            }
                            DownloadState::AwaitMetadata
                        } else {
                            actions.push(DownloadAction::PromptUser);
                            proof {
                                assert(actions@ =~= spec_reply_actions(force, reply));
                            }
                            DownloadState::AwaitAnswer
                        }
                    },
                    DownloadOutcome::NotUploaded => DownloadState::Done(DownloadEnd::NotUploaded),
                    DownloadOutcome::ServerError(code) => DownloadState::Done(
                        DownloadEnd::Failed(code),
                    ),
                    DownloadOutcome::Transport => DownloadState::Done(DownloadEnd::TransportFailed),
                }
            },
            (DownloadState::AwaitAnswer, DownloadEvent::Answer(ans)) => {
                if answer_is_yes(&ans) {
                    actions.push(DownloadAction::UnpackArchive);
                    actions.push(DownloadAction::RemoveArchive);
                    actions.push(DownloadAction::FetchMetadata);
                    proof {
                        assert(actions@ =~= spec_answer_actions(ans@));
                    }
                    DownloadState::AwaitMetadata
                } else {
                    actions.push(DownloadAction::RemoveArchive);
                    proof {
                        assert(actions@ =~= spec_answer_actions(ans@));
                    }
                    DownloadState::Done(DownloadEnd::Declined)
                }
            },
            (DownloadState::AwaitMetadata, DownloadEvent::Metadata(reply, meta)) => {
                match (get_metadata_outcome(&reply), meta) {
                    (GetMetadataOutcome::Found, Option::Some(rec)) => {
                        let ghost grec = rec;
                        actions.push(
                            DownloadAction::SaveThemeMetadata(
                                ThemeLocalMetadata {
                                    screenshot: rec.screen,
                                    description: rec.description,
                                },
                            ),
                        );
                        actions.push(DownloadAction::CheckHooks);
                        proof {
                            assert(actions@ =~= spec_metadata_actions(reply, Option::Some(grec)));
                        }
                        DownloadState::AwaitHooks
                    },
                    _ => DownloadState::Done(DownloadEnd::MetadataFailed),
                }
            },
            (DownloadState::AwaitHooks, DownloadEvent::Hooks(has_hook)) => {
                if !force {
                    actions.push(DownloadAction::Warn { escalated: has_hook });
                    proof {
                        assert(actions@ =~= seq![DownloadAction::Warn { escalated: has_hook }]);
                    }
                }
                DownloadState::Done(DownloadEnd::Installed)
            },
            (state, _) => state,
        };
        (DownloadMachine { force, state: next }, actions)
    }
}

} // verus!
