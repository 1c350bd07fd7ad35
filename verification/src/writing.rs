//! Writing material in every configured encoding, one file after another,
//! with hooks before and after each file.

use crate::format::{Format, PersistKind};
use crate::storage::{HookStage, Storage};
use vstd::prelude::*;

verus! {

/// Where a write stands: what was asked of the caller last.
#[derive(Clone, Copy, Debug, PartialEq, Eq, Structural)]
pub enum PutStage {
    /// Nothing yet.
    Begin,
    /// Whether the file exists.
    Check,
    /// To run the hooks that precede the write.
    PreHooks,
    /// To write the file.
    Write,
    /// To set the file's ownership.
    Owner,
    /// To run the hooks that follow the write.
    PostHooks,
    /// Nothing more: every encoding was written.
    Completed,
    /// Nothing more: the write was given up.
    Aborted,
}

/// The state of a write: the position of the encoding at work among the
/// configured ones, the stage reached for it, and whether its file existed
/// before.
#[derive(Clone, Copy, Debug, PartialEq, Eq, Structural)]
pub struct PutState {
    pub index: usize,
    pub stage: PutStage,
    pub existed: bool,
}

/// What the caller reports back.
#[derive(Clone, Copy, Debug, PartialEq, Eq, Structural)]
pub enum PutEvent {
    /// The write begins.
    Start,
    /// The file exists, or does not.
    Exists(bool),
    /// What was asked for is done.
    Done,
    /// What was asked for failed.
    Failed,
}

/// What the caller is asked to do.
#[derive(Clone, Copy, Debug, PartialEq, Eq, Structural)]
pub enum PutAction {
    /// Find out whether the file of this encoding exists.
    CheckExists { format: Format },
    /// Run the hooks of `stage`, in order, against the file of this encoding.
    RunHooks { format: Format, stage: HookStage },
    /// Open the file of this encoding, or create it with these mode bits;
    /// drop what it held; write the material to it, converted from the
    /// textual encoding first where `convert` is set; and sync it.
    Write { format: Format, mode: u32, convert: bool },
    /// Give the file of this encoding this owner and group; `None` leaves
    /// that part as it is.
    SetOwner { format: Format, owner: Option<u32>, group: Option<u32> },
    /// The write is complete.
    Complete,
    /// The write is given up with the failure reported; files written so
    /// far stay as they are.
    Abort,
}

impl PutState {
    /// The state before anything was done.
    pub open spec fn spec_new() -> PutState {
        PutState { index: 0, stage: PutStage::Begin, existed: false }
    }

    /// The state before anything was done.
    pub fn new() -> (r: PutState)
        ensures
            r == PutState::spec_new(),
    {
        PutState { index: 0, stage: PutStage::Begin, existed: false }
    }

    /// The same state at another stage.
    pub open spec fn at(self, stage: PutStage) -> PutState {
        PutState { index: self.index, stage, existed: self.existed }
    }
}

/// The hooks that precede a write: the edit hooks for a file that exists,
/// the create hooks for a new one.
pub open spec fn hooks_before(existed: bool) -> HookStage {
    if existed {
        HookStage::PreEdit
    } else {
        HookStage::PreCreate
    }
}

/// The hooks that follow a write: the edit hooks for a file that existed
/// before it, the create hooks for a new one.
pub open spec fn hooks_after(existed: bool) -> HookStage {
    if existed {
        HookStage::PostEdit
    } else {
        HookStage::PostCreate
    }
}

/// What a caller for whom nothing fails reports of `action`: whether the
/// file exists, from `existing` by the encoding's position, or that the
/// action is done.
pub open spec fn reply(state: PutState, action: PutAction, existing: Seq<bool>) -> PutEvent {
    match action {
        PutAction::CheckExists { .. } => PutEvent::Exists(existing[state.index as int]),
        _ => PutEvent::Done,
    }
}

impl Storage {
    /// The write of the file of `format`: the mode bits of the kind's
    /// class, and a conversion for every encoding but the textual one.
    pub open spec fn write_of(self, kind: PersistKind, format: Format) -> PutAction {
        PutAction::Write {
            format,
            mode: self.spec_file_mode(kind),
            convert: format != Format::Pem,
        }
    }

    /// The change of ownership of the file of `format`.
    pub open spec fn ownership_of(self, kind: PersistKind, format: Format) -> PutAction {
        PutAction::SetOwner {
            format,
            owner: self.spec_owner(kind).0,
            group: self.spec_owner(kind).1,
        }
    }

    /// The state and the action that follow `state` on `event`.
    ///
    /// The encodings are taken in their configured order. For each: ask
    /// whether the file exists; run the hooks that precede the write; write;
    /// set the ownership; run the hooks that follow. With no encoding
    /// configured the write is complete at once. A failure, or an event that
    /// does not answer what was asked, gives the write up; nothing is asked
    /// after that, and nothing is undone.
    pub open spec fn put_model(self, kind: PersistKind, state: PutState, event: PutEvent) -> (
        PutState,
        PutAction,
    ) {
        if state.stage == PutStage::Completed {
            (state, PutAction::Complete)
        } else if state.stage == PutStage::Begin && event == PutEvent::Start && state.index
            >= self.formats@.len() {
            (state.at(PutStage::Completed), PutAction::Complete)
        } else if state.index >= self.formats@.len() {
            (state.at(PutStage::Aborted), PutAction::Abort)
        } else {
            let format = self.formats@[state.index as int];
            match (state.stage, event) {
                (PutStage::Begin, PutEvent::Start) => (
                    state.at(PutStage::Check),
                    PutAction::CheckExists { format },
                ),
                (PutStage::Check, PutEvent::Exists(existed)) => (
                    PutState { index: state.index, stage: PutStage::PreHooks, existed },
                    PutAction::RunHooks { format, stage: hooks_before(existed) },
                ),
                (PutStage::PreHooks, PutEvent::Done) => (
                    state.at(PutStage::Write),
                    self.write_of(kind, format),
                ),
                (PutStage::Write, PutEvent::Done) => (
                    state.at(PutStage::Owner),
                    self.ownership_of(kind, format),
                ),
                (PutStage::Owner, PutEvent::Done) => (
                    state.at(PutStage::PostHooks),
                    PutAction::RunHooks { format, stage: hooks_after(state.existed) },
                ),
                (PutStage::PostHooks, PutEvent::Done) => if state.index + 1
                    < self.formats@.len() {
                    (
                        PutState {
                            index: (state.index + 1) as usize,
                            stage: PutStage::Check,
                            existed: false,
                        },
                        PutAction::CheckExists { format: self.formats@[state.index + 1] },
                    )
                } else {
                    (state.at(PutStage::Completed), PutAction::Complete)
                },
                _ => (state.at(PutStage::Aborted), PutAction::Abort),
            }
        }
    }

    /// The state and the action reached after `steps` answers in a write
    /// in which nothing fails: each question on a file's existence is
    /// answered from `existing`, by the encoding's position, and every
    /// other action is reported as done.
    pub open spec fn after(self, kind: PersistKind, existing: Seq<bool>, steps: nat) -> (
        PutState,
        PutAction,
    )
        decreases steps,
    {
        if steps == 0 {
            self.put_model(kind, PutState::spec_new(), PutEvent::Start)
        } else {
            let before = self.after(kind, existing, (steps - 1) as nat);
            self.put_model(kind, before.0, reply(before.0, before.1, existing))
        }
    }

    /// One step of writing the material of `kind`, which the caller holds in
    /// the textual encoding: takes the state and what the caller reports of
    /// the action asked last, and gives the next state and the next action.
    /// A write starts from `PutState::new()` with `PutEvent::Start`.
    pub fn put(&self, kind: PersistKind, state: PutState, event: PutEvent) -> (r: (
        PutState,
        PutAction,
    ))
        ensures
            r == self.put_model(kind, state, event),
    {
        if state.stage == PutStage::Completed {
            return (state, PutAction::Complete);
        }
        if state.stage == PutStage::Begin && event == PutEvent::Start && state.index
            >= self.formats.len() {
            return (
                PutState { index: state.index, stage: PutStage::Completed, existed: state.existed },
                PutAction::Complete,
            );
        }
        let aborted = PutState { index: state.index, stage: PutStage::Aborted, existed: state.existed };
        if state.index >= self.formats.len() {
            return (aborted, PutAction::Abort);
        }
        let format = self.formats[state.index];
        let index = state.index;
        match (state.stage, event) {
            (PutStage::Begin, PutEvent::Start) => (
                PutState { index, stage: PutStage::Check, existed: state.existed },
                PutAction::CheckExists { format },
            ),
            (PutStage::Check, PutEvent::Exists(existed)) => {
                let stage = if existed {
                    HookStage::PreEdit
                } else {
                    HookStage::PreCreate
                };
                (
                    PutState { index, stage: PutStage::PreHooks, existed },
                    PutAction::RunHooks { format, stage },
                )
            },
            (PutStage::PreHooks, PutEvent::Done) => (
                PutState { index, stage: PutStage::Write, existed: state.existed },
                PutAction::Write {
                    format,
                    mode: self.get_file_mode(kind),
                    convert: format != Format::Pem,
                },
            ),
            (PutStage::Write, PutEvent::Done) => {
                let (owner, group) = self.resolve_owner(kind);
                (
                    PutState { index, stage: PutStage::Owner, existed: state.existed },
                    PutAction::SetOwner { format, owner, group },
                )
            },
            (PutStage::Owner, PutEvent::Done) => {
                let stage = if state.existed {
                    HookStage::PostEdit
                } else {
                    HookStage::PostCreate
                };
                (
                    PutState { index, stage: PutStage::PostHooks, existed: state.existed },
                    PutAction::RunHooks { format, stage },
                )
            },
            (PutStage::PostHooks, PutEvent::Done) => {
                if index + 1 < self.formats.len() {
                    (
                        PutState { index: index + 1, stage: PutStage::Check, existed: false },
                        PutAction::CheckExists { format: self.formats[index + 1] },
                    )
                } else {
                    (
                        PutState { index, stage: PutStage::Completed, existed: state.existed },
                        PutAction::Complete,
                    )
                }
            },
            _ => (aborted, PutAction::Abort),
        }
    }
}

} // verus!
