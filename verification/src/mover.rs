//! Moving one file into a destination directory without overwriting
//! anything there and without losing the file on a partial failure.
//!
//! The engine is a state machine: it decides, the caller performs each
//! filesystem step (`request`) and reports what happened (`step`). The
//! protocol is: make sure the destination directory exists, probe candidate
//! destination names until a free one is found, rename the source onto it,
//! and when the rename fails because source and destination sit on
//! different filesystems, copy the contents first and delete the source
//! only after the copy succeeded.

use vstd::prelude::*;

use crate::paths::candidate_path;
use crate::paths::clone_bytes;
use crate::paths::file_name_of;
use crate::paths::lemma_candidate_zero;
use crate::paths::spec_candidate_path;
use crate::paths::spec_file_name;
use crate::paths::spec_join;

verus! {

/// Why a move failed. Every variant carries the paths involved and, where
/// the filesystem reported one, its message.
#[derive(Debug, PartialEq, Eq)]
pub enum MoveError {
    /// The source path has no file name component.
    InvalidSource { source: Vec<u8> },
    /// The destination directory could not be created; the source file is
    /// untouched.
    CreateDirFailed { dir: Vec<u8>, cause: Vec<u8> },
    /// A rename, copy or delete failed; the source file is either still at
    /// its original location or already fully copied to `dest`.
    TransferFailed { source: Vec<u8>, dest: Vec<u8>, cause: Vec<u8> },
}

/// What the caller observed when it attempted the rename.
#[derive(Debug, PartialEq, Eq)]
pub enum RenameOutcome {
    /// The rename succeeded.
    Renamed,
    /// The rename failed because source and destination are on different
    /// filesystems; the engine falls back to copy-then-delete.
    CrossesFilesystems,
    /// The rename failed for any other reason, with the reported message.
    RenameError(Vec<u8>),
}

/// The caller's report on the one filesystem step it was asked to perform.
/// An `Option<Vec<u8>>` payload is `None` on success and holds the
/// reported message on failure.
#[derive(Debug, PartialEq, Eq)]
pub enum FsEvent {
    /// Whether the destination directory exists.
    DirChecked(bool),
    /// The result of creating the destination directory.
    DirCreated(Option<Vec<u8>>),
    /// Whether the probed candidate destination path exists.
    CandidateChecked(bool),
    /// The result of the rename.
    RenameDone(RenameOutcome),
    /// The result of copying the source to the destination.
    CopyDone(Option<Vec<u8>>),
    /// The result of deleting the source.
    DeleteDone(Option<Vec<u8>>),
}

/// The one filesystem step the caller is asked to perform next.
#[derive(Debug, PartialEq, Eq)]
pub enum FsRequest {
    /// Check whether the directory exists.
    CheckDir { dir: Vec<u8> },
    /// Create the directory and all missing ancestors.
    CreateDir { dir: Vec<u8> },
    /// Check whether the path exists.
    CheckPath { path: Vec<u8> },
    /// Atomically rename `from` onto `to`.
    Rename { from: Vec<u8>, to: Vec<u8> },
    /// Copy the contents of `from` to `to`.
    Copy { from: Vec<u8>, to: Vec<u8> },
    /// Delete the file at `path`.
    Delete { path: Vec<u8> },
}

/// Where the move stands. `k` is the number of the destination name being
/// tried: `0` is the literal `dest_dir/file_name`, each further number adds
/// one underscore to the stem.
#[derive(Debug, PartialEq, Eq)]
pub enum MovePhase {
    /// Waiting to learn whether the destination directory exists.
    CheckingDir,
    /// Waiting for the destination directory to be created.
    CreatingDir,
    /// Waiting to learn whether candidate `k` is free.
    Probing { k: usize },
    /// Waiting for the rename onto candidate `k`.
    Renaming { k: usize },
    /// Waiting for the copy onto candidate `k`.
    Copying { k: usize },
    /// The copy succeeded; waiting for the source to be deleted.
    Deleting { k: usize },
    /// The file now sits at candidate `k`.
    Done { k: usize },
    /// The move failed.
    Failed { error: MoveError },
}

/// One file move in progress.
pub struct MoveTask {
    /// The file being moved.
    pub source: Vec<u8>,
    /// The directory it is moved into.
    pub dest_dir: Vec<u8>,
    /// The file name of `source`.
    pub name: Vec<u8>,
    /// Where the move stands.
    pub phase: MovePhase,
}

/// Whether an event answers the request of the given phase.
pub open spec fn event_matches(phase: MovePhase, event: FsEvent) -> bool {
    match phase {
        MovePhase::CheckingDir => event is DirChecked,
        MovePhase::CreatingDir => event is DirCreated,
        MovePhase::Probing { .. } => event is CandidateChecked,
        MovePhase::Renaming { .. } => event is RenameDone,
        MovePhase::Copying { .. } => event is CopyDone,
        MovePhase::Deleting { .. } => event is DeleteDone,
        MovePhase::Done { .. } => false,
        MovePhase::Failed { .. } => false,
    }
}

impl MoveTask {
    /// The destination path tried at probe number `k`.
    pub open spec fn dest_at(self, k: nat) -> Seq<u8> {
        spec_candidate_path(self.dest_dir@, self.name@, k)
    }

    /// `name` really is the file name of `source`.
    pub open spec fn wf(self) -> bool {
        spec_file_name(self.source@) == Some(self.name@)
    }

    /// Starts a move of `source` into `dest_dir`. A source without a file
    /// name component is a caller error and is rejected outright.
    pub fn new(source: Vec<u8>, dest_dir: Vec<u8>) -> (r: Result<MoveTask, MoveError>)
        ensures
            match r {
                Ok(t) => {
                    &&& spec_file_name(source@) is Some
                    &&& t.wf()
                    &&& t.source@ == source@
                    &&& t.dest_dir@ == dest_dir@
                    &&& t.phase == MovePhase::CheckingDir
                },
                Err(e) => {
                    &&& spec_file_name(source@) is None
                    &&& e matches MoveError::InvalidSource { source: s } && s@ == source@
                },
            },
    {
        match file_name_of(&source) {
            Some(name) => Ok(
                MoveTask { source, dest_dir, name, phase: MovePhase::CheckingDir },
            ),
            None => Err(MoveError::InvalidSource { source }),
        }
    }

    /// The filesystem step the caller must perform next; `None` once the
    /// move is done or failed.
    pub fn request(&self) -> (r: Option<FsRequest>)
        ensures
            match self.phase {
                MovePhase::CheckingDir => r matches Some(FsRequest::CheckDir { dir })
                    && dir@ == self.dest_dir@,
                MovePhase::CreatingDir => r matches Some(FsRequest::CreateDir { dir })
                    && dir@ == self.dest_dir@,
                MovePhase::Probing { k } => r matches Some(FsRequest::CheckPath { path })
                    && path@ == self.dest_at(k as nat),
                MovePhase::Renaming { k } => r matches Some(
                    FsRequest::Rename { from, to },
                ) && from@ == self.source@ && to@ == self.dest_at(k as nat),
                MovePhase::Copying { k } => r matches Some(FsRequest::Copy { from, to })
                    && from@ == self.source@ && to@ == self.dest_at(k as nat),
                MovePhase::Deleting { .. } => r matches Some(
                    FsRequest::Delete { path },
                ) && path@ == self.source@,
                MovePhase::Done { .. } => r is None,
                MovePhase::Failed { .. } => r is None,
            },
    {
        match &self.phase {
            MovePhase::CheckingDir => Some(
                FsRequest::CheckDir { dir: clone_bytes(&self.dest_dir) },
            ),
            MovePhase::CreatingDir => Some(
                FsRequest::CreateDir { dir: clone_bytes(&self.dest_dir) },
            ),
            MovePhase::Probing { k } => Some(
                FsRequest::CheckPath {
                    path: candidate_path(&self.dest_dir, &self.name, *k),
                },
            ),
            MovePhase::Renaming { k } => Some(
                FsRequest::Rename {
                    from: clone_bytes(&self.source),
                    to: candidate_path(&self.dest_dir, &self.name, *k),
                },
            ),
            MovePhase::Copying { k } => Some(
                FsRequest::Copy {
                    from: clone_bytes(&self.source),
                    to: candidate_path(&self.dest_dir, &self.name, *k),
                },
            ),
            MovePhase::Deleting { .. } => Some(
                FsRequest::Delete { path: clone_bytes(&self.source) },
            ),
            MovePhase::Done { .. } => None,
            MovePhase::Failed { .. } => None,
        }
    }

    /// Advances the move by the caller's report on the step it performed.
    ///
    /// The transitions, in full: an existing destination directory is used,
    /// a missing one is created first. Probing walks `k` upward until a
    /// free candidate is found, which is then the rename target. A rename
    /// across filesystems falls back to copy-then-delete; the source is
    /// deleted only after the copy succeeded. Every reported failure ends
    /// the move with the corresponding error, paths and cause attached.
    pub fn step(&mut self, event: FsEvent)
        requires
            old(self).wf(),
            event_matches(old(self).phase, event),
            old(self).phase matches MovePhase::Probing { k } ==> (event
                == FsEvent::CandidateChecked(true) ==> k < usize::MAX),
        ensures
            final(self).source == old(self).source,
            final(self).dest_dir == old(self).dest_dir,
            final(self).name == old(self).name,
            final(self).wf(),
            match (old(self).phase, event) {
                (MovePhase::CheckingDir, FsEvent::DirChecked(present)) => final(self).phase == (
                if present {
                    MovePhase::Probing { k: 0 }
                } else {
                    MovePhase::CreatingDir
                }),
                (MovePhase::CreatingDir, FsEvent::DirCreated(out)) => match out {
                    None => final(self).phase == (MovePhase::Probing { k: 0 }),
                    Some(cause) => final(self).phase matches MovePhase::Failed {
                        error: MoveError::CreateDirFailed { dir, cause: c },
                    } && dir@ == old(self).dest_dir@ && c@ == cause@,
                },
                (MovePhase::Probing { k }, FsEvent::CandidateChecked(present)) => final(
                    self).phase == (if present {
                    MovePhase::Probing { k: (k + 1) as usize }
                } else {
                    MovePhase::Renaming { k }
                }),
                (MovePhase::Renaming { k }, FsEvent::RenameDone(outcome)) => match outcome {
                    RenameOutcome::Renamed => final(self).phase == (MovePhase::Done { k }),
                    RenameOutcome::CrossesFilesystems => final(self).phase == (
                    MovePhase::Copying { k }),
                    RenameOutcome::RenameError(cause) => final(self).phase
                        matches MovePhase::Failed {
                        error: MoveError::TransferFailed { source, dest, cause: c },
                    } && source@ == old(self).source@ && dest@ == old(self).dest_at(
                        k as nat,
                    ) && c@ == cause@,
                },
                (MovePhase::Copying { k }, FsEvent::CopyDone(out)) => match out {
                    None => final(self).phase == (MovePhase::Deleting { k }),
                    Some(cause) => final(self).phase matches MovePhase::Failed {
                        error: MoveError::TransferFailed { source, dest, cause: c },
                    } && source@ == old(self).source@ && dest@ == old(self).dest_at(
                        k as nat,
                    ) && c@ == cause@,
                },
                (MovePhase::Deleting { k }, FsEvent::DeleteDone(out)) => match out {
                    None => final(self).phase == (MovePhase::Done { k }),
                    Some(cause) => final(self).phase matches MovePhase::Failed {
                        error: MoveError::TransferFailed { source, dest, cause: c },
                    } && source@ == old(self).source@ && dest@ == old(self).dest_at(
                        k as nat,
                    ) && c@ == cause@,
                },
                _ => true,
            },
    {
        let next: MovePhase = match (&self.phase, &event) {
            (MovePhase::CheckingDir, FsEvent::DirChecked(present)) => {
                if *present {
                    MovePhase::Probing { k: 0 }
                } else {
                    MovePhase::CreatingDir
                }
            },
            (MovePhase::CreatingDir, FsEvent::DirCreated(out)) => match out {
                None => MovePhase::Probing { k: 0 },
                Some(cause) => MovePhase::Failed {
                    error: MoveError::CreateDirFailed {
                        dir: clone_bytes(&self.dest_dir),
                        cause: clone_bytes(cause),
                    },
                },
            },
            (MovePhase::Probing { k }, FsEvent::CandidateChecked(present)) => {
                if *present {
                    MovePhase::Probing { k: *k + 1 }
                } else {
                    MovePhase::Renaming { k: *k }
                }
            },
            (MovePhase::Renaming { k }, FsEvent::RenameDone(outcome)) => match outcome {
                RenameOutcome::Renamed => MovePhase::Done { k: *k },
                RenameOutcome::CrossesFilesystems => MovePhase::Copying { k: *k },
                RenameOutcome::RenameError(cause) => MovePhase::Failed {
                    error: MoveError::TransferFailed {
                        source: clone_bytes(&self.source),
                        dest: candidate_path(&self.dest_dir, &self.name, *k),
                        cause: clone_bytes(cause),
                    },
                },
            },
            (MovePhase::Copying { k }, FsEvent::CopyDone(out)) => match out {
                None => MovePhase::Deleting { k: *k },
                Some(cause) => MovePhase::Failed {
                    error: MoveError::TransferFailed {
                        source: clone_bytes(&self.source),
                        dest: candidate_path(&self.dest_dir, &self.name, *k),
                        cause: clone_bytes(cause),
                    },
                },
            },
            (MovePhase::Deleting { k }, FsEvent::DeleteDone(out)) => match out {
                None => MovePhase::Done { k: *k },
                Some(cause) => MovePhase::Failed {
                    error: MoveError::TransferFailed {
                        source: clone_bytes(&self.source),
                        dest: candidate_path(&self.dest_dir, &self.name, *k),
                        cause: clone_bytes(cause),
                    },
                },
            },
            _ => MovePhase::CheckingDir,
        };
        self.phase = next;
    }
}

/// With no name collision the destination actually used is the literal
/// `dest_dir/file_name`: the zeroth candidate path is the plain join of the
/// two.
pub proof fn lemma_no_collision_uses_literal_destination(dir: Seq<u8>, name: Seq<u8>)
    ensures
        spec_candidate_path(dir, name, 0) == spec_join(dir, name),
{
    lemma_candidate_zero(name);
}

} // verus!
