use image_selector::mover::FsEvent;
use image_selector::mover::FsRequest;
use image_selector::mover::MoveError;
use image_selector::mover::MovePhase;
use image_selector::mover::MoveTask;
use image_selector::mover::RenameOutcome;

fn bv(s: &str) -> Vec<u8> {
    s.as_bytes().to_vec()
}

fn started(source: &str, dest_dir: &str) -> MoveTask {
    MoveTask::new(bv(source), bv(dest_dir)).expect("source should have a file name")
}

#[test]
fn source_without_file_name_is_rejected() {
    let r = MoveTask::new(bv("dir/"), bv("dest"));
    assert_eq!(r.err(), Some(MoveError::InvalidSource { source: bv("dir/") }));
}

#[test]
fn no_collision_moves_to_literal_destination() {
    let mut t = started("src/photo.png", "dest");
    assert_eq!(t.request(), Some(FsRequest::CheckDir { dir: bv("dest") }));
    t.step(FsEvent::DirChecked(true));
    assert_eq!(t.request(), Some(FsRequest::CheckPath { path: bv("dest/photo.png") }));
    t.step(FsEvent::CandidateChecked(false));
    assert_eq!(
        t.request(),
        Some(FsRequest::Rename { from: bv("src/photo.png"), to: bv("dest/photo.png") })
    );
    t.step(FsEvent::RenameDone(RenameOutcome::Renamed));
    assert_eq!(t.phase, MovePhase::Done { k: 0 });
    assert_eq!(t.request(), None);
}

#[test]
fn collisions_probe_underscored_names_without_overwriting() {
    let mut t = started("src/photo.png", "dest");
    t.step(FsEvent::DirChecked(true));
    // dest/photo.png is taken, dest/photo_.png is taken too.
    t.step(FsEvent::CandidateChecked(true));
    assert_eq!(t.request(), Some(FsRequest::CheckPath { path: bv("dest/photo_.png") }));
    t.step(FsEvent::CandidateChecked(true));
    assert_eq!(t.request(), Some(FsRequest::CheckPath { path: bv("dest/photo__.png") }));
    t.step(FsEvent::CandidateChecked(false));
    assert_eq!(
        t.request(),
        Some(FsRequest::Rename { from: bv("src/photo.png"), to: bv("dest/photo__.png") })
    );
    t.step(FsEvent::RenameDone(RenameOutcome::Renamed));
    assert_eq!(t.phase, MovePhase::Done { k: 2 });
}

#[test]
fn missing_destination_directory_is_created_first() {
    let mut t = started("src/photo.png", "dest/new");
    t.step(FsEvent::DirChecked(false));
    assert_eq!(t.request(), Some(FsRequest::CreateDir { dir: bv("dest/new") }));
    t.step(FsEvent::DirCreated(None));
    assert_eq!(t.request(), Some(FsRequest::CheckPath { path: bv("dest/new/photo.png") }));
}

#[test]
fn failed_directory_creation_fails_the_move() {
    let mut t = started("src/photo.png", "dest/new");
    t.step(FsEvent::DirChecked(false));
    t.step(FsEvent::DirCreated(Some(bv("permission denied"))));
    assert_eq!(
        t.phase,
        MovePhase::Failed {
            error: MoveError::CreateDirFailed {
                dir: bv("dest/new"),
                cause: bv("permission denied"),
            }
        }
    );
    assert_eq!(t.request(), None);
}

#[test]
fn cross_filesystem_rename_falls_back_to_copy_then_delete() {
    let mut t = started("src/photo.png", "dest");
    t.step(FsEvent::DirChecked(true));
    t.step(FsEvent::CandidateChecked(false));
    t.step(FsEvent::RenameDone(RenameOutcome::CrossesFilesystems));
    assert_eq!(
        t.request(),
        Some(FsRequest::Copy { from: bv("src/photo.png"), to: bv("dest/photo.png") })
    );
    t.step(FsEvent::CopyDone(None));
    // The source is deleted only now, after the copy succeeded.
    assert_eq!(t.request(), Some(FsRequest::Delete { path: bv("src/photo.png") }));
    t.step(FsEvent::DeleteDone(None));
    assert_eq!(t.phase, MovePhase::Done { k: 0 });
}

#[test]
fn failed_copy_keeps_the_source_and_reports_both_paths() {
    let mut t = started("src/photo.png", "dest");
    t.step(FsEvent::DirChecked(true));
    t.step(FsEvent::CandidateChecked(false));
    t.step(FsEvent::RenameDone(RenameOutcome::CrossesFilesystems));
    t.step(FsEvent::CopyDone(Some(bv("disk full"))));
    assert_eq!(
        t.phase,
        MovePhase::Failed {
            error: MoveError::TransferFailed {
                source: bv("src/photo.png"),
                dest: bv("dest/photo.png"),
                cause: bv("disk full"),
            }
        }
    );
    // No delete is ever requested once the move failed.
    assert_eq!(t.request(), None);
}

#[test]
fn plain_rename_failure_reports_both_paths() {
    let mut t = started("src/photo.png", "dest");
    t.step(FsEvent::DirChecked(true));
    t.step(FsEvent::CandidateChecked(false));
    t.step(FsEvent::RenameDone(RenameOutcome::RenameError(bv("read-only filesystem"))));
    assert_eq!(
        t.phase,
        MovePhase::Failed {
            error: MoveError::TransferFailed {
                source: bv("src/photo.png"),
                dest: bv("dest/photo.png"),
                cause: bv("read-only filesystem"),
            }
        }
    );
}

#[test]
fn failed_delete_after_copy_reports_both_paths() {
    let mut t = started("src/photo.png", "dest");
    t.step(FsEvent::DirChecked(true));
    t.step(FsEvent::CandidateChecked(false));
    t.step(FsEvent::RenameDone(RenameOutcome::CrossesFilesystems));
    t.step(FsEvent::CopyDone(None));
    t.step(FsEvent::DeleteDone(Some(bv("busy"))));
    assert_eq!(
        t.phase,
        MovePhase::Failed {
            error: MoveError::TransferFailed {
                source: bv("src/photo.png"),
                dest: bv("dest/photo.png"),
                cause: bv("busy"),
            }
        }
    );
}
