//! Lifecycle of the working folders: the staging root and the diverted
//! live models folder.
//!
//! During compilation the destination's live `models` folder is renamed
//! aside to a fixed temporary name, so the compiler writes into a fresh
//! folder; restoring deletes whatever then occupies the live path and
//! renames the diverted copy back. The model here tracks who holds which
//! folder; the caller performs the renames and deletions the methods plan,
//! and instantiates the contents type `C` with whatever it uses to stand
//! for a folder's contents.

use vstd::prelude::*;
use crate::error::ScaError;

verus! {

/// One folder operation for the caller to perform.
#[derive(Clone, Copy, PartialEq, Eq, Structural, Debug)]
pub enum FolderAction {
    /// Create an empty folder at the live path.
    CreateEmptyLive,
    /// Rename the live folder to the temporary aside name.
    RenameLiveToAside,
    /// Delete whatever occupies the live path.
    DeleteLive,
    /// Rename the aside folder back to the live path.
    RenameAsideToLive,
    /// Recursively delete the staging root.
    DeleteStaging,
}

/// The name the live models folder is renamed aside to.
pub fn temp_models_name() -> (r: String)
    ensures
        r@ == "__TEMP_MODELS"@,
{
    "__TEMP_MODELS".to_owned()
}

/// The state of the working folders: what the live models path holds, what
/// the aside name holds, and whether a staging root exists.
pub struct WorkArea<C> {
    pub live: Option<C>,
    pub aside: Option<C>,
    pub staging: bool,
}

impl<C> WorkArea<C> {
    /// The state after diverting: the live path is vacated and the aside
    /// name holds what was live, or a fresh empty folder if nothing was.
    pub open spec fn spec_divert(self, empty: C) -> Self {
        WorkArea {
            live: None,
            aside: Some(
                match self.live {
                    Some(c) => c,
                    None => empty,
                },
            ),
            staging: self.staging,
        }
    }

    /// The state after restoring: whatever occupied the live path is
    /// discarded and the aside contents return to the live name; nothing
    /// changes when no diversion is pending.
    pub open spec fn spec_restore(self) -> Self {
        match self.aside {
            None => self,
            Some(c) => WorkArea { live: Some(c), aside: None, staging: self.staging },
        }
    }

    /// Diverts the live models folder aside before compilation. Fails with
    /// `DiversionExists` when a diversion is already pending; otherwise the
    /// returned actions create the live folder first when it is missing, so
    /// the rename always has a source.
    pub fn create_temp_models_folder(&mut self, empty: C) -> (r: Result<Vec<FolderAction>, ScaError>)
        ensures
            old(self).aside is Some ==> r == Err::<Vec<FolderAction>, ScaError>(
                ScaError::DiversionExists,
            ) && *final(self) == *old(self),
            old(self).aside is None ==> {
                &&& *final(self) == old(self).spec_divert(empty)
                &&& match r {
                    Ok(actions) => actions@ == (if old(self).live is Some {
                        seq![FolderAction::RenameLiveToAside]
                    } else {
                        seq![FolderAction::CreateEmptyLive, FolderAction::RenameLiveToAside]
                    }),
                    Err(_) => false,
                }
            },
    {
        if self.aside.is_some() {
            return Err(ScaError::DiversionExists);
        }
        let cur: Option<C> = self.live.take();
        match cur {
            Some(c) => {
                self.aside = Some(c);
                let actions: Vec<FolderAction> = vec![FolderAction::RenameLiveToAside];
                proof {
                    assert(actions@ =~= seq![FolderAction::RenameLiveToAside]);
                }
                Ok(actions)
            },
            None => {
                self.aside = Some(empty);
                let actions: Vec<FolderAction> = vec![
                    FolderAction::CreateEmptyLive,
                    FolderAction::RenameLiveToAside,
                ];
                proof {
                    assert(actions@ =~= seq![
                        FolderAction::CreateEmptyLive,
                        FolderAction::RenameLiveToAside,
                    ]);
                }
                Ok(actions)
            },
        }
    }

    /// Restores the live models folder after compilation: deletes what now
    /// occupies the live path and renames the diverted copy back. A no-op
    /// when no diversion is pending. The deletion is the destructive step:
    /// output meant to survive must have been relocated first.
    pub fn delete_temp_models_folder(&mut self) -> (r: Vec<FolderAction>)
        ensures
            *final(self) == old(self).spec_restore(),
            r@ == (if old(self).aside is Some {
                if old(self).live is Some {
                    seq![FolderAction::DeleteLive, FolderAction::RenameAsideToLive]
                } else {
                    seq![FolderAction::RenameAsideToLive]
                }
            } else {
                Seq::<FolderAction>::empty()
            }),
    {
        let aside: Option<C> = self.aside.take();
        match aside {
            None => {
                let actions: Vec<FolderAction> = Vec::new();
                proof {
                    assert(actions@ =~= Seq::<FolderAction>::empty());
                }
                actions
            },
            Some(c) => {
                let had_live: bool = self.live.is_some();
                self.live = Some(c);
                let mut actions: Vec<FolderAction> = Vec::new();
                if had_live {
                    actions.push(FolderAction::DeleteLive);
                }
                actions.push(FolderAction::RenameAsideToLive);
                proof {
                    if had_live {
                        assert(actions@ =~= seq![
                            FolderAction::DeleteLive,
                            FolderAction::RenameAsideToLive,
                        ]);
                    } else {
                        assert(actions@ =~= seq![FolderAction::RenameAsideToLive]);
                    }
                }
                actions
            },
        }
    }

    /// Clears the staging root; idempotent, and touches nothing else.
    pub fn clear_staging(&mut self) -> (r: Vec<FolderAction>)
        ensures
            final(self).staging == false,
            final(self).live == old(self).live,
            final(self).aside == old(self).aside,
            r@ == (if old(self).staging {
                seq![FolderAction::DeleteStaging]
            } else {
                Seq::<FolderAction>::empty()
            }),
    {
        let had: bool = self.staging;
        self.staging = false;
        let mut actions: Vec<FolderAction> = Vec::new();
        if had {
            actions.push(FolderAction::DeleteStaging);
        }
        proof {
            if had {
                assert(actions@ =~= seq![FolderAction::DeleteStaging]);
            } else {
                assert(actions@ =~= Seq::<FolderAction>::empty());
            }
        }
        actions
    }
}

/// Diverting and then restoring with no intervening writes gives back the
/// live folder exactly as it was; when no live folder existed, an empty one
/// stands in its place.
pub proof fn lemma_divert_restore_preserves_live<C>(pre: WorkArea<C>, empty: C)
    requires
        pre.aside is None,
    ensures
        pre.live is Some ==> pre.spec_divert(empty).spec_restore() == pre,
        pre.live is None ==> pre.spec_divert(empty).spec_restore() == (WorkArea {
            live: Some(empty),
            aside: None,
            staging: pre.staging,
        }),
{
}

/// The phases of one pipeline run, in their only legal order.
#[derive(Clone, Copy, PartialEq, Eq, Structural, Debug)]
pub enum Phase {
    Clean,
    Staged,
    Diverted,
    Compiling,
    Packaged,
}

/// What just happened, driving the phase machine.
#[derive(Clone, Copy, PartialEq, Eq, Structural, Debug)]
pub enum PhaseEvent {
    Stage,
    Divert,
    BeginCompile,
    FinishPackage,
    Restore,
    ErrorCleanup,
}

/// The one successor of a phase under an event, or none when the event is
/// out of order: stage, divert, compile, package, restore; error cleanup
/// returns any started run to clean.
pub open spec fn next_phase(p: Phase, e: PhaseEvent) -> Option<Phase> {
    match (p, e) {
        (Phase::Clean, PhaseEvent::Stage) => Some(Phase::Staged),
        (Phase::Staged, PhaseEvent::Divert) => Some(Phase::Diverted),
        (Phase::Diverted, PhaseEvent::BeginCompile) => Some(Phase::Compiling),
        (Phase::Compiling, PhaseEvent::FinishPackage) => Some(Phase::Packaged),
        (Phase::Packaged, PhaseEvent::Restore) => Some(Phase::Clean),
        (Phase::Staged, PhaseEvent::ErrorCleanup) => Some(Phase::Clean),
        (Phase::Diverted, PhaseEvent::ErrorCleanup) => Some(Phase::Clean),
        (Phase::Compiling, PhaseEvent::ErrorCleanup) => Some(Phase::Clean),
        (Phase::Packaged, PhaseEvent::ErrorCleanup) => Some(Phase::Clean),
        _ => None,
    }
}

/// Advances the phase machine; refuses an out-of-order event.
pub fn advance(p: Phase, e: PhaseEvent) -> (r: Option<Phase>)
    ensures
        r == next_phase(p, e),
{
    match (p, e) {
        (Phase::Clean, PhaseEvent::Stage) => Some(Phase::Staged),
        (Phase::Staged, PhaseEvent::Divert) => Some(Phase::Diverted),
        (Phase::Diverted, PhaseEvent::BeginCompile) => Some(Phase::Compiling),
        (Phase::Compiling, PhaseEvent::FinishPackage) => Some(Phase::Packaged),
        (Phase::Packaged, PhaseEvent::Restore) => Some(Phase::Clean),
        (Phase::Staged, PhaseEvent::ErrorCleanup) => Some(Phase::Clean),
        (Phase::Diverted, PhaseEvent::ErrorCleanup) => Some(Phase::Clean),
        (Phase::Compiling, PhaseEvent::ErrorCleanup) => Some(Phase::Clean),
        (Phase::Packaged, PhaseEvent::ErrorCleanup) => Some(Phase::Clean),
        _ => None,
    }
}

} // verus!
