use vstd::prelude::*;

verus! {

/// A character that may appear in the name of a key in the key store.
pub open spec fn key_name_char(c: char) -> bool {
    ('a' <= c && c <= 'z') || ('A' <= c && c <= 'Z') || ('0' <= c && c <= '9') || c == '-'
        || c == '_'
}

/// The names the key store accepts: ASCII letters, digits, `-` and `_`.
pub open spec fn key_name_ok(s: Seq<char>) -> bool {
    forall|i: int| 0 <= i < s.len() ==> key_name_char(#[trigger] s[i])
}

/// Relies on signatory::KeyName::new, which accepts a name exactly when each
/// of its bytes is an ASCII letter, an ASCII digit, `-` or `_`.
#[verifier::external_body]
pub(crate) fn is_valid_key_name(s: &str) -> (r: bool)
    ensures
        r == key_name_ok(s@),
{
    signatory::KeyName::new(s).is_ok()
}

/// Rename a Cosmos key in the key store: `args` holds the name and the new
/// name; `overwrite` allows replacing a key that already has the new name.
#[derive(Debug, Default)]
pub struct RenameCosmosKeyCmd {
    pub args: Vec<String>,
    pub overwrite: bool,
}

/// Why the arguments of a rename do not name two keys.
#[derive(Clone, Copy, Debug, PartialEq, Eq, Structural)]
pub enum RenameArgError {
    MissingName,
    InvalidName,
    MissingNewName,
    InvalidNewName,
}

/// The stage a rename has reached; each stage waits for the outcome of the
/// key-store operation that led to it.
#[derive(Clone, Copy, Debug, PartialEq, Eq, Structural)]
pub enum RenameStage {
    AwaitTargetInfo,
    AwaitLoad,
    AwaitStore,
    AwaitDelete,
    Finished,
}

/// The outcome of a key-store operation.
#[derive(Clone, Copy, Debug, PartialEq, Eq, Structural)]
pub enum RenameEvent {
    /// Whether a key with the new name already exists.
    TargetInfo { exists: bool },
    /// Whether the key under the old name could be loaded.
    Loaded { ok: bool },
    /// Whether the key was written under the new name.
    Stored { ok: bool },
    /// Whether the key under the old name was deleted.
    Deleted { ok: bool },
}

/// Why a rename stopped before it was done.
#[derive(Clone, Copy, Debug, PartialEq, Eq, Structural)]
pub enum RenameFailure {
    SourceUnreadable,
    StoreFailed,
    DeleteFailed,
    OutOfOrder,
}

/// The next key-store operation of a rename, or how it ended.
#[derive(Clone, Copy, Debug, PartialEq, Eq, Structural)]
pub enum RenameAction {
    LoadSource,
    StoreTarget,
    DeleteSource,
    /// The new name is taken and overwriting was not allowed: nothing changes.
    RefuseExisting,
    Done,
    Fail(RenameFailure),
}

pub open spec fn rename_next(stage: RenameStage, overwrite: bool, ev: RenameEvent) -> (
    RenameStage,
    RenameAction,
) {
    match (stage, ev) {
        (RenameStage::AwaitTargetInfo, RenameEvent::TargetInfo { exists }) => if exists
            && !overwrite {
            (RenameStage::Finished, RenameAction::RefuseExisting)
        } else {
            (RenameStage::AwaitLoad, RenameAction::LoadSource)
        },
        (RenameStage::AwaitLoad, RenameEvent::Loaded { ok }) => if ok {
            (RenameStage::AwaitStore, RenameAction::StoreTarget)
        } else {
            (RenameStage::Finished, RenameAction::Fail(RenameFailure::SourceUnreadable))
        },
        (RenameStage::AwaitStore, RenameEvent::Stored { ok }) => if ok {
            (RenameStage::AwaitDelete, RenameAction::DeleteSource)
        } else {
            (RenameStage::Finished, RenameAction::Fail(RenameFailure::StoreFailed))
        },
        (RenameStage::AwaitDelete, RenameEvent::Deleted { ok }) => if ok {
            (RenameStage::Finished, RenameAction::Done)
        } else {
            (RenameStage::Finished, RenameAction::Fail(RenameFailure::DeleteFailed))
        },
        _ => (RenameStage::Finished, RenameAction::Fail(RenameFailure::OutOfOrder)),
    }
}

impl RenameCosmosKeyCmd {
    /// The old and the new name, each checked against the key store's rules.
    pub fn key_names(&self) -> (r: Result<(String, String), RenameArgError>)
        ensures
            self.args@.len() == 0 ==> r == Err::<(String, String), _>(RenameArgError::MissingName),
            self.args@.len() >= 1 && !key_name_ok(self.args@[0]@) ==> r == Err::<
                (String, String),
                _,
            >(RenameArgError::InvalidName),
            self.args@.len() == 1 && key_name_ok(self.args@[0]@) ==> r == Err::<
                (String, String),
                _,
            >(RenameArgError::MissingNewName),
            self.args@.len() >= 2 && key_name_ok(self.args@[0]@) && !key_name_ok(self.args@[1]@)
                ==> r == Err::<(String, String), _>(RenameArgError::InvalidNewName),
            r is Ok <==> self.args@.len() >= 2 && key_name_ok(self.args@[0]@) && key_name_ok(
                self.args@[1]@,
            ),
            r matches Ok((a, b)) ==> a@ == self.args@[0]@ && b@ == self.args@[1]@,
    {
        if self.args.len() == 0 {
            return Err(RenameArgError::MissingName);
        }
        if !is_valid_key_name(self.args[0].as_str()) {
            return Err(RenameArgError::InvalidName);
        }
        if self.args.len() < 2 {
            return Err(RenameArgError::MissingNewName);
        }
        if !is_valid_key_name(self.args[1].as_str()) {
            return Err(RenameArgError::InvalidNewName);
        }
        Ok((self.args[0].clone(), self.args[1].clone()))
    }
}

impl RenameStage {
    /// A rename begins by asking whether the new name is taken.
    pub fn start() -> (r: RenameStage)
        ensures
            r == RenameStage::AwaitTargetInfo,
    {
        RenameStage::AwaitTargetInfo
    }

    /// Takes the outcome of the last key-store operation and gives the next
    /// stage and what to do. The old key is deleted only once the key has
    /// been written under the new name; a taken name without `overwrite`
    /// ends the rename with no change.
    pub fn step(self, overwrite: bool, ev: RenameEvent) -> (r: (RenameStage, RenameAction))
        ensures
            r == rename_next(self, overwrite, ev),
    {
        match (self, ev) {
            (RenameStage::AwaitTargetInfo, RenameEvent::TargetInfo { exists }) => {
                if exists && !overwrite {
                    (RenameStage::Finished, RenameAction::RefuseExisting)
                } else {
                    (RenameStage::AwaitLoad, RenameAction::LoadSource)
                }
            },
            (RenameStage::AwaitLoad, RenameEvent::Loaded { ok }) => {
                if ok {
                    (RenameStage::AwaitStore, RenameAction::StoreTarget)
                } else {
                    (RenameStage::Finished, RenameAction::Fail(RenameFailure::SourceUnreadable))
                }
            },
            (RenameStage::AwaitStore, RenameEvent::Stored { ok }) => {
                if ok {
                    (RenameStage::AwaitDelete, RenameAction::DeleteSource)
                } else {
                    (RenameStage::Finished, RenameAction::Fail(RenameFailure::StoreFailed))
                }
            },
            (RenameStage::AwaitDelete, RenameEvent::Deleted { ok }) => {
                if ok {
                    (RenameStage::Finished, RenameAction::Done)
                } else {
                    (RenameStage::Finished, RenameAction::Fail(RenameFailure::DeleteFailed))
                }
            },
            _ => (RenameStage::Finished, RenameAction::Fail(RenameFailure::OutOfOrder)),
        }
    }
}

/// The stages and actions of a rename that starts at `stage` and receives the
/// outcomes `evs`.
pub open spec fn rename_run(stage: RenameStage, overwrite: bool, evs: Seq<RenameEvent>) -> Seq<
    (RenameStage, RenameAction),
>
    decreases evs.len(),
{
    if evs.len() == 0 {
        Seq::empty()
    } else {
        let (s2, a) = rename_next(stage, overwrite, evs[0]);
        seq![(s2, a)] + rename_run(s2, overwrite, evs.drop_first())
    }
}

/// The stage a run is in before its `i`-th outcome arrives.
pub open spec fn stage_before(
    stage: RenameStage,
    run: Seq<(RenameStage, RenameAction)>,
    i: int,
) -> RenameStage {
    if i == 0 {
        stage
    } else {
        run[i - 1].0
    }
}

proof fn lemma_run_steps(stage: RenameStage, overwrite: bool, evs: Seq<RenameEvent>)
    ensures
        rename_run(stage, overwrite, evs).len() == evs.len(),
        forall|i: int|
            0 <= i < evs.len() ==> #[trigger] rename_run(stage, overwrite, evs)[i] == rename_next(
                stage_before(stage, rename_run(stage, overwrite, evs), i),
                overwrite,
                evs[i],
            ),
    decreases evs.len(),
{
    if evs.len() > 0 {
        let (s2, a) = rename_next(stage, overwrite, evs[0]);
        let rest = evs.drop_first();
        lemma_run_steps(s2, overwrite, rest);
        let run = rename_run(stage, overwrite, evs);
        let tail = rename_run(s2, overwrite, rest);
        assert forall|i: int| 0 <= i < evs.len() implies #[trigger] run[i] == rename_next(
            stage_before(stage, run, i),
            overwrite,
            evs[i],
        ) by {
            if i > 0 {
                assert(run[i] == tail[i - 1]);
                assert(rest[i - 1] == evs[i]);
                if i > 1 {
                    assert(run[i - 1] == tail[i - 2]);
                }
            }
        }
    }
}

proof fn lemma_finished_stays(overwrite: bool, evs: Seq<RenameEvent>)
    ensures
        rename_run(RenameStage::Finished, overwrite, evs).len() == evs.len(),
        forall|i: int|
            0 <= i < evs.len() ==> (#[trigger] rename_run(RenameStage::Finished, overwrite, evs)[i]).1
                == RenameAction::Fail(RenameFailure::OutOfOrder),
    decreases evs.len(),
{
    if evs.len() > 0 {
        lemma_finished_stays(overwrite, evs.drop_first());
        let run = rename_run(RenameStage::Finished, overwrite, evs);
        let tail = rename_run(RenameStage::Finished, overwrite, evs.drop_first());
        assert forall|i: int| 0 <= i < evs.len() implies (#[trigger] run[i]).1
            == RenameAction::Fail(RenameFailure::OutOfOrder) by {
            if i > 0 {
                assert(run[i] == tail[i - 1]);
            }
        }
    }
}

/// Renaming onto a name that is taken, without `overwrite`: the rename is
/// refused, and whatever outcomes follow, no key is ever written or deleted.
pub proof fn lemma_rename_refused_without_overwrite(evs: Seq<RenameEvent>)
    requires
        evs.len() > 0,
        evs[0] == (RenameEvent::TargetInfo { exists: true }),
    ensures
        rename_run(RenameStage::AwaitTargetInfo, false, evs)[0].1 == RenameAction::RefuseExisting,
        forall|i: int|
            0 <= i < evs.len() ==> {
                let a = (#[trigger] rename_run(RenameStage::AwaitTargetInfo, false, evs)[i]).1;
                a != RenameAction::StoreTarget && a != RenameAction::DeleteSource
            },
{
    let run = rename_run(RenameStage::AwaitTargetInfo, false, evs);
    let tail = rename_run(RenameStage::Finished, false, evs.drop_first());
    lemma_finished_stays(false, evs.drop_first());
    lemma_run_steps(RenameStage::AwaitTargetInfo, false, evs);
    assert forall|i: int| 0 <= i < evs.len() implies {
        let a = (#[trigger] run[i]).1;
        a != RenameAction::StoreTarget && a != RenameAction::DeleteSource
    } by {
        if i > 0 {
            assert(run[i] == tail[i - 1]);
        }
    }
}

/// In every rename, the old key is deleted only right after the key was
/// written under the new name, and that write succeeded.
pub proof fn lemma_delete_only_after_store(overwrite: bool, evs: Seq<RenameEvent>, i: int)
    requires
        0 <= i < evs.len(),
        rename_run(RenameStage::AwaitTargetInfo, overwrite, evs)[i].1 == RenameAction::DeleteSource,
    ensures
        i >= 1,
        rename_run(RenameStage::AwaitTargetInfo, overwrite, evs)[i - 1].1 == RenameAction::StoreTarget,
        evs[i] == (RenameEvent::Stored { ok: true }),
{
    lemma_run_steps(RenameStage::AwaitTargetInfo, overwrite, evs);
    let run = rename_run(RenameStage::AwaitTargetInfo, overwrite, evs);
    assert(run[i] == rename_next(stage_before(RenameStage::AwaitTargetInfo, run, i), overwrite, evs[i]));
    if i >= 1 {
        assert(run[i - 1] == rename_next(
            stage_before(RenameStage::AwaitTargetInfo, run, i - 1),
            overwrite,
            evs[i - 1],
        ));
    }
}

} // verus!
