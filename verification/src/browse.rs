//! The browsing state machine: what the user is currently looking at, kept
//! consistent with a filesystem that may change behind its back.
//!
//! `App` owns the candidate list and the current position. Navigation wraps
//! around; an operation that finds the current item gone from disk asks for
//! a rescan instead of acting on stale data; a move that empties the list
//! asks for a rescan too. Listing directories and touching files is the
//! caller's job: `update` returns an [`Effect`] naming the work to do, and
//! the caller reports a finished scan through `apply_scan` and a finished
//! move through `finish_move`.

use vstd::prelude::*;

use crate::paths::clone_bytes;
use crate::paths::is_candidate;
use crate::scan::candidates_of;
use crate::scan::scan_candidates;
use vstd::arithmetic::div_mod::lemma_add_mod_noop;
use vstd::arithmetic::div_mod::lemma_mod_self_0;
use vstd::arithmetic::div_mod::lemma_small_mod;

verus! {

/// The index shown after one `next` step: one further, wrapping past the
/// end of a list of length `n` back to the start.
pub open spec fn next_index(i: int, n: int) -> int {
    if i + 1 >= n {
        0
    } else {
        i + 1
    }
}

/// The index shown after one `previous` step: one back, wrapping from the
/// start of a list of length `n` to its last index.
pub open spec fn prev_index(i: int, n: int) -> int {
    if i == 0 {
        n - 1
    } else {
        i - 1
    }
}

/// The index after `k` `next` steps from `i`.
pub open spec fn iter_next(i: int, n: int, k: nat) -> int
    decreases k,
{
    if k == 0 {
        i
    } else {
        next_index(iter_next(i, n, (k - 1) as nat), n)
    }
}

/// The index after `k` `previous` steps from `i`.
pub open spec fn iter_prev(i: int, n: int, k: nat) -> int
    decreases k,
{
    if k == 0 {
        i
    } else {
        iter_prev(prev_index(i, n), n, (k - 1) as nat)
    }
}

/// Stepping forward never leaves the list.
pub proof fn lemma_iter_next_in_range(i: int, n: int, k: nat)
    requires
        0 <= i < n,
    ensures
        0 <= iter_next(i, n, k) < n,
    decreases k,
{
    if k > 0 {
        lemma_iter_next_in_range(i, n, (k - 1) as nat);
    }
}

/// Wraparound symmetry: from any position of a non-empty list, any number
/// of `next` steps followed by the same number of `previous` steps returns
/// to the original index — in particular as many of each as the list is
/// long.
pub proof fn lemma_navigation_round_trip(i: int, n: int, k: nat)
    requires
        0 <= i < n,
    ensures
        iter_prev(iter_next(i, n, k), n, k) == i,
    decreases k,
{
    if k > 0 {
        lemma_iter_next_in_range(i, n, (k - 1) as nat);
        lemma_navigation_round_trip(i, n, (k - 1) as nat);
    }
}

/// Stepping forward `k` times lands on `(i + k) % n`.
pub proof fn lemma_iter_next_mod(i: int, n: int, k: nat)
    requires
        0 <= i < n,
    ensures
        iter_next(i, n, k) == (i + k) % n,
    decreases k,
{
    if k == 0 {
        lemma_small_mod(i as nat, n as nat);
    } else {
        lemma_iter_next_mod(i, n, (k - 1) as nat);
        lemma_iter_next_in_range(i, n, (k - 1) as nat);
        let y = iter_next(i, n, (k - 1) as nat);
        lemma_add_mod_noop(i + k - 1, 1, n);
        if n == 1 {
            lemma_small_mod(0nat, 1nat);
            lemma_mod_self_0(1);
            assert((i + k) % n == ((i + k - 1) % n + 1int % n) % n);
            assert(1int % 1int == 0int) by {
                lemma_mod_self_0(1);
            }
            assert((i + k) % n == (y + 0) % n);
            lemma_small_mod(y as nat, 1nat);
        } else {
            lemma_small_mod(1nat, n as nat);
            assert((i + k) % n == (y + 1) % n);
            if y + 1 < n {
                lemma_small_mod((y + 1) as nat, n as nat);
            } else {
                lemma_mod_self_0(n);
            }
        }
    }
}

/// A full cycle returns to the start: as many `next` steps as the list is
/// long land on the original index, and so do as many `previous` steps.
pub proof fn lemma_navigation_full_cycle(i: int, n: int)
    requires
        0 <= i < n,
    ensures
        iter_next(i, n, n as nat) == i,
        iter_prev(i, n, n as nat) == i,
{
    lemma_iter_next_mod(i, n, n as nat);
    lemma_add_mod_noop(i, n, n);
    lemma_mod_self_0(n);
    lemma_small_mod(i as nat, n as nat);
    assert((i + n) % n == i);
    lemma_navigation_round_trip(i, n, n as nat);
}

/// A directory could not be listed; the candidate list was reset to empty
/// and the failing directory and the reported message are surfaced here.
#[derive(Debug, PartialEq, Eq)]
pub struct DirectoryReadError {
    /// The directory whose listing failed (empty when none was configured).
    pub dir: Vec<u8>,
    /// The message the filesystem reported.
    pub cause: Vec<u8>,
}

/// What the user asked for.
#[derive(Debug, Clone, PartialEq, Eq)]
pub enum Message {
    /// Use this directory as the source and rescan it.
    SetSourceDir(Vec<u8>),
    /// Configure the first destination slot.
    SetTargetDir0(Vec<u8>),
    /// Configure the second destination slot.
    SetTargetDir1(Vec<u8>),
    /// Show the next image.
    ImgNext,
    /// Show the previous image.
    ImgPrev,
    /// Move the current image into the destination of the given slot.
    ImgMoveTo(usize),
}

/// The outside work an operation asks its caller to do.
#[derive(Debug, PartialEq, Eq)]
pub enum Effect {
    /// Nothing to do.
    Nothing,
    /// List the source directory and report it through `apply_scan`.
    Rescan,
    /// Move `source` into `dest_dir` (see [`crate::mover::MoveTask`]) and,
    /// on success, report back through `finish_move`.
    StartMove { source: Vec<u8>, dest_dir: Vec<u8> },
}

/// The state of the image browser: the configured directories, the
/// candidate list of the last scan, and the current position in it.
pub struct App {
    /// The directory being triaged.
    pub src_dir: Option<Vec<u8>>,
    /// The first destination slot.
    pub dest_dir0: Option<Vec<u8>>,
    /// The second destination slot.
    pub dest_dir1: Option<Vec<u8>>,
    /// The candidate image files of the last scan, in enumeration order.
    pub img_src_paths: Vec<Vec<u8>>,
    /// The current position; `0` when the list is empty.
    pub img_idx: usize,
}

impl App {
    /// The position is a valid index whenever the list is non-empty, rests
    /// at `0` when it is empty, and the list holds only image candidates.
    pub open spec fn wf(self) -> bool {
        &&& self.img_src_paths@.len() == 0 ==> self.img_idx == 0
        &&& self.img_src_paths@.len() > 0 ==> self.img_idx < self.img_src_paths@.len()
        &&& forall|i: int|
            0 <= i < self.img_src_paths@.len() ==> is_candidate(
                #[trigger] self.img_src_paths@[i]@,
            )
    }

    /// The destination configured for a slot.
    pub open spec fn dest_of(self, slot: int) -> Option<Vec<u8>> {
        if slot == 0 {
            self.dest_dir0
        } else {
            self.dest_dir1
        }
    }

    /// The configured directories are the same in both states.
    pub open spec fn same_dirs(pre: App, post: App) -> bool {
        &&& post.src_dir == pre.src_dir
        &&& post.dest_dir0 == pre.dest_dir0
        &&& post.dest_dir1 == pre.dest_dir1
    }

    /// A fresh state: nothing configured, nothing to show.
    pub fn new() -> (r: App)
        ensures
            r.wf(),
            r.src_dir is None,
            r.dest_dir0 is None,
            r.dest_dir1 is None,
            r.img_src_paths@.len() == 0,
            r.img_idx == 0,
    {
        App {
            src_dir: None,
            dest_dir0: None,
            dest_dir1: None,
            img_src_paths: Vec::new(),
            img_idx: 0,
        }
    }

    /// The path currently shown, if any.
    pub fn current(&self) -> (r: Option<&Vec<u8>>)
        requires
            self.wf(),
        ensures
            match r {
                Some(p) => self.img_src_paths@.len() > 0 && p
                    == self.img_src_paths@[self.img_idx as int],
                None => self.img_src_paths@.len() == 0,
            },
    {
        if self.img_src_paths.len() == 0 {
            None
        } else {
            Some(&self.img_src_paths[self.img_idx])
        }
    }

    /// Whether something is currently shown.
    pub fn has_current(&self) -> (r: bool)
        ensures
            r == (self.img_src_paths@.len() > 0),
    {
        self.img_src_paths.len() > 0
    }

    /// Whether the destination of a slot is configured.
    pub fn dest_configured(&self, slot: usize) -> (r: bool)
        requires
            slot < 2,
        ensures
            r == (self.dest_of(slot as int) is Some),
    {
        if slot == 0 {
            self.dest_dir0.is_some()
        } else {
            self.dest_dir1.is_some()
        }
    }

    /// Handles one user message and says what outside work must follow.
    ///
    /// `current_exists` is the caller's report on whether the file at the
    /// current path is still present on disk, observed just before the
    /// call; messages that do not look at the current item ignore it.
    ///
    /// Directory edits only record the new directory (a source edit asks
    /// for the rescan that must follow). Navigation wraps around, and asks
    /// for a rescan instead when the current item has vanished. A move
    /// request names the current file and the slot's directory; it asks for
    /// a rescan when the current item has vanished, and does nothing when
    /// the slot is not configured or nothing is shown.
    pub fn update(&mut self, message: Message, current_exists: bool) -> (eff: Effect)
        requires
            old(self).wf(),
            message matches Message::ImgMoveTo(slot) ==> slot < 2,
        ensures
            final(self).wf(),
            match message {
                Message::SetSourceDir(dir) => {
                    &&& final(self).src_dir == Some(dir)
                    &&& final(self).dest_dir0 == old(self).dest_dir0
                    &&& final(self).dest_dir1 == old(self).dest_dir1
                    &&& final(self).img_src_paths == old(self).img_src_paths
                    &&& final(self).img_idx == old(self).img_idx
                    &&& eff is Rescan
                },
                Message::SetTargetDir0(dir) => {
                    &&& final(self).dest_dir0 == Some(dir)
                    &&& final(self).src_dir == old(self).src_dir
                    &&& final(self).dest_dir1 == old(self).dest_dir1
                    &&& final(self).img_src_paths == old(self).img_src_paths
                    &&& final(self).img_idx == old(self).img_idx
                    &&& eff is Nothing
                },
                Message::SetTargetDir1(dir) => {
                    &&& final(self).dest_dir1 == Some(dir)
                    &&& final(self).src_dir == old(self).src_dir
                    &&& final(self).dest_dir0 == old(self).dest_dir0
                    &&& final(self).img_src_paths == old(self).img_src_paths
                    &&& final(self).img_idx == old(self).img_idx
                    &&& eff is Nothing
                },
                Message::ImgNext => {
                    &&& App::same_dirs(*old(self), *final(self))
                    &&& final(self).img_src_paths == old(self).img_src_paths
                    &&& if old(self).img_src_paths@.len() == 0 {
                        final(self).img_idx == old(self).img_idx && eff is Nothing
                    } else if !current_exists {
                        final(self).img_idx == old(self).img_idx && eff is Rescan
                    } else {
                        final(self).img_idx == next_index(
                            old(self).img_idx as int,
                            old(self).img_src_paths@.len() as int,
                        ) && eff is Nothing
                    }
                },
                Message::ImgPrev => {
                    &&& App::same_dirs(*old(self), *final(self))
                    &&& final(self).img_src_paths == old(self).img_src_paths
                    &&& if old(self).img_src_paths@.len() == 0 {
                        final(self).img_idx == old(self).img_idx && eff is Nothing
                    } else if !current_exists {
                        final(self).img_idx == old(self).img_idx && eff is Rescan
                    } else {
                        final(self).img_idx == prev_index(
                            old(self).img_idx as int,
                            old(self).img_src_paths@.len() as int,
                        ) && eff is Nothing
                    }
                },
                Message::ImgMoveTo(slot) => {
                    &&& *final(self) == *old(self)
                    &&& if old(self).img_src_paths@.len() == 0 {
                        eff is Nothing
                    } else if old(self).dest_of(slot as int) is None {
                        eff is Nothing
                    } else if !current_exists {
                        eff is Rescan
                    } else {
                        eff matches Effect::StartMove { source, dest_dir } && source@
                            == old(self).img_src_paths@[old(self).img_idx as int]@
                            && dest_dir@ == old(self).dest_of(slot as int)->0@
                    }
                },
            },
    {
        match message {
            Message::SetSourceDir(dir) => {
                self.src_dir = Some(dir);
                Effect::Rescan
            },
            Message::SetTargetDir0(dir) => {
                self.dest_dir0 = Some(dir);
                Effect::Nothing
            },
            Message::SetTargetDir1(dir) => {
                self.dest_dir1 = Some(dir);
                Effect::Nothing
            },
            Message::ImgNext => {
                if self.img_src_paths.len() == 0 {
                    Effect::Nothing
                } else if !current_exists {
                    Effect::Rescan
                } else {
                    let n = self.img_src_paths.len();
                    self.img_idx = if self.img_idx + 1 >= n {
                        0
                    } else {
                        self.img_idx + 1
                    };
                    Effect::Nothing
                }
            },
            Message::ImgPrev => {
                if self.img_src_paths.len() == 0 {
                    Effect::Nothing
                } else if !current_exists {
                    Effect::Rescan
                } else {
                    self.img_idx = if self.img_idx == 0 {
                        self.img_src_paths.len() - 1
                    } else {
                        self.img_idx - 1
                    };
                    Effect::Nothing
                }
            },
            Message::ImgMoveTo(slot) => {
                if self.img_src_paths.len() == 0 {
                    Effect::Nothing
                } else {
                    let dest = if slot == 0 {
                        &self.dest_dir0
                    } else {
                        &self.dest_dir1
                    };
                    match dest {
                        None => Effect::Nothing,
                        Some(dd) => {
                            if !current_exists {
                                Effect::Rescan
                            } else {
                                let source = clone_bytes(&self.img_src_paths[self.img_idx]);
                                let dest_dir = clone_bytes(dd);
                                Effect::StartMove { source, dest_dir }
                            }
                        },
                    }
                }
            },
        }
    }

    /// Installs the outcome of a directory scan: on success the filtered
    /// candidate list, on failure an empty list (stale entries are
    /// discarded rather than kept). Either way the position returns to the
    /// start. `listing` holds the directory's entries as full paths, or the
    /// message the filesystem reported.
    pub fn apply_scan(&mut self, listing: Result<Vec<Vec<u8>>, Vec<u8>>) -> (r: Result<
        (),
        DirectoryReadError,
    >)
        ensures
            final(self).wf(),
            App::same_dirs(*old(self), *final(self)),
            final(self).img_idx == 0,
            match listing {
                Ok(entries) => final(self).img_src_paths.deep_view() == candidates_of(
                    entries.deep_view(),
                ) && r is Ok,
                Err(cause) => {
                    &&& final(self).img_src_paths@.len() == 0
                    &&& r matches Err(e)
                    &&& e.cause@ == cause@
                    &&& match old(self).src_dir {
                        Some(d) => e.dir@ == d@,
                        None => e.dir@ == Seq::<u8>::empty(),
                    }
                },
            },
    {
        match listing {
            Ok(entries) => {
                let list = scan_candidates(&entries);
                self.img_src_paths = list;
                self.img_idx = 0;
                Ok(())
            },
            Err(cause) => {
                self.img_src_paths = Vec::new();
                self.img_idx = 0;
                let dir = match &self.src_dir {
                    Some(d) => clone_bytes(d),
                    None => Vec::new(),
                };
                Err(DirectoryReadError { dir, cause })
            },
        }
    }

    /// Removes the current item after its file was moved away. The position
    /// stays on the same index (now the following item) and returns to the
    /// start when it would fall off the end. Moving the last remaining item
    /// asks for a rescan, so the state ends up consistent with whatever the
    /// directory holds by now.
    pub fn finish_move(&mut self) -> (eff: Effect)
        requires
            old(self).wf(),
            old(self).img_src_paths@.len() > 0,
        ensures
            final(self).wf(),
            App::same_dirs(*old(self), *final(self)),
            final(self).img_src_paths@ == old(self).img_src_paths@.remove(
                old(self).img_idx as int,
            ),
            final(self).img_idx == if old(self).img_idx >= old(self).img_src_paths@.len() - 1 {
                0int
            } else {
                old(self).img_idx as int
            },
            eff is Rescan <==> old(self).img_src_paths@.len() == 1,
            eff is Rescan || eff is Nothing,
    {
        let ghost pre = self.img_src_paths@;
        let ghost at = self.img_idx as int;
        self.img_src_paths.remove(self.img_idx);
        if self.img_idx >= self.img_src_paths.len() {
            self.img_idx = 0;
        }
        proof {
            assert forall|i: int| 0 <= i < self.img_src_paths@.len() implies is_candidate(
                #[trigger] self.img_src_paths@[i]@,
            ) by {
                if i < at {
                    assert(self.img_src_paths@[i] == pre[i]);
                } else {
                    assert(self.img_src_paths@[i] == pre[i + 1]);
                }
            }
        }
        if self.img_src_paths.len() == 0 {
            Effect::Rescan
        } else {
            Effect::Nothing
        }
    }
}

} // verus!
