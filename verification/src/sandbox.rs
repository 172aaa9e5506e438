//! The shadow clone: creating one, describing one, finding one, throwing one
//! away.
//!
//! A rehearsal directory is self-describing: `meta.json` next to the clone holds
//! everything a later invocation needs to report on it or apply it. The sandbox
//! is disposable and inert. Inert means no remotes and no hooks; disposable
//! means it lives in the cache directory, is deleted at once on discard, and is
//! pruned by age.

use vstd::prelude::*;

use crate::carry::{Carry, CarryModel, Replay, ReplayModel};
use crate::execute::Outcome;
use crate::paths::{inside, join_path};
use crate::refs::{Entries, RefMap};
use crate::session::{ran, Session, Stop};
use crate::text::Text;

pub mod lifecycle;
pub mod merge_config;
pub mod meta;
pub mod rerere;
pub mod store;

pub use lifecycle::create;
pub use meta::{Checkout, CheckoutModel, Meta, MetaModel, Status, META_SCHEMA};
pub use store::{find, list, prune, DEFAULT_TTL_SECS};

verus! {

/// What a caller must decide before a sandbox can exist.
#[derive(Debug)]
pub struct Plan {
    /// Canonical worktree root of the real repository.
    pub repo: String,
    /// The command being rehearsed, as the user wrote it.
    pub command: Vec<String>,
    /// What to check out in the sandbox.
    pub checkout: Checkout,
    /// Every ref in the real repository at snapshot time. Apply reads it again
    /// to prove nothing moved, so it is evidence and not a cache.
    pub pre_state: RefMap,
    /// The uncommitted work to carry through the rehearsal, if there was any.
    pub carry: Option<Carry>,
}

/// The model of a [`Plan`].
pub struct PlanModel {
    pub repo: Text,
    pub command: Seq<Text>,
    pub checkout: CheckoutModel,
    pub pre_state: Entries,
    pub carry: Option<CarryModel>,
}

impl DeepView for Plan {
    type V = PlanModel;

    open spec fn deep_view(&self) -> PlanModel {
        PlanModel {
            repo: self.repo@,
            command: self.command.deep_view(),
            checkout: self.checkout.deep_view(),
            pre_state: self.pre_state.deep_view(),
            carry: self.carry.deep_view(),
        }
    }
}

/// A rehearsal directory on disk.
#[derive(Debug)]
pub struct Sandbox {
    /// The directory itself.
    pub root: String,
    /// What it says about itself.
    pub meta: Meta,
}

/// The model of a [`Sandbox`].
pub struct SandboxModel {
    pub root: Text,
    pub meta: MetaModel,
}

impl DeepView for Sandbox {
    type V = SandboxModel;

    open spec fn deep_view(&self) -> SandboxModel {
        SandboxModel { root: self.root@, meta: self.meta.deep_view() }
    }
}

/// Where the clone stands in a rehearsal directory.
pub open spec fn worktree_of(root: Text) -> Text {
    inside(root, "sandbox"@)
}

/// The metadata with how the command ended.
pub open spec fn with_result(meta: MetaModel, outcome: Outcome) -> MetaModel {
    MetaModel { result: Some(outcome), ..meta }
}

/// The metadata with what became of the carried work, where work was carried.
pub open spec fn with_replay(meta: MetaModel, replay: ReplayModel) -> MetaModel {
    match meta.carry {
        Some(carry) => MetaModel {
            carry: Some(CarryModel { replay: Some(replay), ..carry }),
            ..meta
        },
        None => meta,
    }
}

/// The metadata of a rehearsal that is to be kept.
pub open spec fn with_kept(meta: MetaModel) -> MetaModel {
    MetaModel { status: Status::Kept, ..meta }
}

impl Sandbox {
    /// The rehearsal id, as used by `git rehearse show|apply|discard`.
    pub fn id(&self) -> (id: &str)
        ensures
            id@ == self.deep_view().meta.id,
    {
        &self.meta.id
    }

    /// The rehearsal directory.
    pub fn root(&self) -> (root: &str)
        ensures
            root@ == self.deep_view().root,
    {
        &self.root
    }

    /// The shadow clone's worktree, where the rehearsed command runs.
    pub fn worktree(&self) -> (path: String)
        ensures
            path@ == worktree_of(self.deep_view().root),
    {
        join_path(&self.root, "sandbox")
    }

    /// Everything recorded about this rehearsal.
    pub fn meta(&self) -> (meta: &Meta)
        ensures
            meta.deep_view() == self.deep_view().meta,
    {
        &self.meta
    }

    /// Records how the rehearsed command ended.
    pub fn record(&mut self, session: &mut Session, outcome: &Outcome) -> (result: Result<(), Stop>)
        ensures
            final(self).deep_view() == (SandboxModel {
                meta: with_result(old(self).deep_view().meta, *outcome),
                ..old(self).deep_view()
            }),
            ran(result, final(session)@) == meta::write_script(
                final(self).deep_view().meta,
                final(self).deep_view().root,
                old(session)@,
            ),
    {
        self.meta.result = Some(*outcome);
        assert(self.deep_view().meta.result == Some(*outcome));
        self.meta.write(session, &self.root)
    }

    /// Records what became of the carried uncommitted work.
    pub fn record_replay(&mut self, session: &mut Session, replay: Replay) -> (result: Result<
        (),
        Stop,
    >)
        ensures
            final(self).deep_view() == (SandboxModel {
                meta: with_replay(old(self).deep_view().meta, replay.deep_view()),
                ..old(self).deep_view()
            }),
            ran(result, final(session)@) == meta::write_script(
                final(self).deep_view().meta,
                final(self).deep_view().root,
                old(session)@,
            ),
    {
        if let Some(carry) = &self.meta.carry {
            let carry = Carry {
                snapshot: carry.snapshot.clone(),
                paths: crate::text::copy_texts(&carry.paths),
                replay: Some(replay),
            };
            self.meta.carry = Some(carry);
        }
        self.meta.write(session, &self.root)
    }

    /// Marks the rehearsal as one to keep.
    pub fn keep(&mut self, session: &mut Session) -> (result: Result<(), Stop>)
        ensures
            final(self).deep_view() == (SandboxModel {
                meta: with_kept(old(self).deep_view().meta),
                ..old(self).deep_view()
            }),
            ran(result, final(session)@) == meta::write_script(
                final(self).deep_view().meta,
                final(self).deep_view().root,
                old(session)@,
            ),
    {
        self.meta.status = Status::Kept;
        self.meta.write(session, &self.root)
    }
}

} // verus!
