use vstd::prelude::*;

verus! {

// The client keeps at most one signed-in identity on disk.  Loading
// classifies the three states the session file can be in; saving goes
// through a temporary sibling so the canonical file is never observed
// half-written; clearing removes the canonical file.

/// The locally persisted identity and auth token of the signed-in user.
#[derive(Clone, PartialEq, Eq, Debug)]
pub struct UserInfo {
    pub name: Vec<u8>,
    pub token: Vec<u8>,
}

/// Why a stored session could not be produced.
#[derive(Clone, Copy, PartialEq, Eq, Structural, Debug)]
pub enum SessionError {
    /// The session file does not exist.
    NotLoggedIn,
    /// The session file exists but its contents do not parse.
    CorruptState,
}

/// Classifies a session-load attempt.  The caller reads the fixed session
/// file and tries to parse it; this function turns what it saw into the
/// stored identity or the one error the state deserves: an absent file is
/// `NotLoggedIn`, a present but unreadable one is `CorruptState`.
pub fn classify_session_load(found: Option<Option<UserInfo>>) -> (r: Result<UserInfo, SessionError>)
    ensures
        match found {
            Option::None => r == Result::<UserInfo, SessionError>::Err(SessionError::NotLoggedIn),
            Option::Some(Option::None) => r == Result::<UserInfo, SessionError>::Err(
                SessionError::CorruptState,
            ),
            Option::Some(Option::Some(info)) => r == Result::<UserInfo, SessionError>::Ok(info),
        },
{
    match found {
        Option::None => Result::Err(SessionError::NotLoggedIn),
        Option::Some(Option::None) => Result::Err(SessionError::CorruptState),
        Option::Some(Option::Some(info)) => Result::Ok(info),
    }
}

/// Classifies a logout: removing the canonical session file succeeds exactly
/// when the file existed.
pub fn classify_session_clear(existed: bool) -> (r: Result<(), SessionError>)
    ensures
        existed ==> r == Result::<(), SessionError>::Ok(()),
        !existed ==> r == Result::<(), SessionError>::Err(SessionError::NotLoggedIn),
{
    if existed {
        Result::Ok(())
    } else {
        Result::Err(SessionError::NotLoggedIn)
    }
}

/// One filesystem step of the write-temp / promote / clean-up pattern used
/// to persist the session.
#[derive(Clone, PartialEq, Eq, Debug)]
pub enum FsAction {
    /// Create or truncate the temporary sibling and write these bytes to it.
    WriteTemp(Vec<u8>),
    /// Copy the temporary sibling over the canonical session file.
    PromoteCopy,
    /// Delete the temporary sibling.
    RemoveTemp,
}

/// The contents of the two files the pattern touches; `None` means the file
/// does not exist.
pub ghost struct FsModel {
    pub canonical: Option<Seq<u8>>,
    pub temp: Option<Seq<u8>>,
}

/// What one step does to the two files.
pub open spec fn apply_fs_action(s: FsModel, a: FsAction) -> FsModel {
    match a {
        FsAction::WriteTemp(data) => FsModel { canonical: s.canonical, temp: Option::Some(data@) },
        FsAction::PromoteCopy => match s.temp {
            Option::Some(data) => FsModel { canonical: Option::Some(data), temp: s.temp },
            Option::None => s,
        },
        FsAction::RemoveTemp => FsModel { canonical: s.canonical, temp: Option::None },
    }
}

/// What a run of steps, in order, does to the two files.
pub open spec fn apply_fs_actions(s: FsModel, actions: Seq<FsAction>) -> FsModel
    decreases actions.len(),
{
    if actions.len() == 0 {
        s
    } else {
        apply_fs_actions(apply_fs_action(s, actions.first()), actions.drop_first())
    }
}

/// The plan for persisting serialized session data: write the bytes to the
/// temporary sibling, copy it over the canonical file, remove the sibling.
pub fn save_session_plan(data: Vec<u8>) -> (r: Vec<FsAction>)
    ensures
        r@.len() == 3,
        r@[0] == FsAction::WriteTemp(data),
        r@[1] == FsAction::PromoteCopy,
        r@[2] == FsAction::RemoveTemp,
{
    let mut plan: Vec<FsAction> = Vec::new();
    plan.push(FsAction::WriteTemp(data));
    plan.push(FsAction::PromoteCopy);
    plan.push(FsAction::RemoveTemp);
    plan
}

/// A crash can cut the plan anywhere, so only a prefix of its steps runs.
/// After every prefix, the canonical file holds either exactly what it held
/// before or exactly the new bytes — never a truncated or mixed state.
pub proof fn lemma_save_session_atomic(init: FsModel, plan: Seq<FsAction>, data: Vec<u8>, k: int)
    requires
        plan.len() == 3,
        plan[0] == FsAction::WriteTemp(data),
        plan[1] == FsAction::PromoteCopy,
        plan[2] == FsAction::RemoveTemp,
        0 <= k <= plan.len(),
    ensures
        apply_fs_actions(init, plan.take(k)).canonical == init.canonical || apply_fs_actions(
            init,
            plan.take(k),
        ).canonical == Option::Some(data@),
{
    reveal_with_fuel(apply_fs_actions, 4);
    if k == 0 {
        assert(plan.take(0) =~= Seq::<FsAction>::empty());
    } else if k == 1 {
        assert(plan.take(1) =~= seq![plan[0]]);
        assert(plan.take(1).drop_first() =~= Seq::<FsAction>::empty());
    } else if k == 2 {
        assert(plan.take(2) =~= seq![plan[0], plan[1]]);
        assert(plan.take(2).drop_first() =~= seq![plan[1]]);
        assert(plan.take(2).drop_first().drop_first() =~= Seq::<FsAction>::empty());
    } else {
        assert(plan.take(3) =~= seq![plan[0], plan[1], plan[2]]);
        assert(plan.take(3).drop_first() =~= seq![plan[1], plan[2]]);
        assert(plan.take(3).drop_first().drop_first() =~= seq![plan[2]]);
        assert(plan.take(3).drop_first().drop_first().drop_first() =~= Seq::<FsAction>::empty());
    }
}

/// Once the whole plan has run, the canonical file holds the new bytes and
/// the temporary sibling is gone.
pub proof fn lemma_save_session_complete(init: FsModel, plan: Seq<FsAction>, data: Vec<u8>)
    requires
        plan.len() == 3,
        plan[0] == FsAction::WriteTemp(data),
        plan[1] == FsAction::PromoteCopy,
        plan[2] == FsAction::RemoveTemp,
    ensures
        apply_fs_actions(init, plan).canonical == Option::Some(data@),
        apply_fs_actions(init, plan).temp == Option::<Seq<u8>>::None,
{
    reveal_with_fuel(apply_fs_actions, 4);
    assert(plan.drop_first() =~= seq![plan[1], plan[2]]);
    assert(plan.drop_first().drop_first() =~= seq![plan[2]]);
    assert(plan.drop_first().drop_first().drop_first() =~= Seq::<FsAction>::empty());
}

} // verus!
