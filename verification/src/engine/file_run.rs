//! The transfer of one file of a running job, as a machine that is told what
//! the file system and the user answered and says what to do next: create a
//! directory, try a same-volume rename, look at the destination, ask about a
//! conflict, find a free name, copy (and retry), verify, and finally what to
//! record.
use vstd::prelude::*;
use crate::engine::{FileStatus, TransferFile};
use crate::engine::conflict::{
    answered_action, spec_answer_decision, spec_conflict_action, spec_standing_action,
    standing_action, ConflictAction, ConflictFacts, ConflictResolution,
};
use crate::engine::hasher::HashAlgorithm;
use crate::engine::queue::{
    cancelled_error, cancelled_text, deletes_source, mismatch_text, overall_after_copy,
    spec_overall_after_copy, spec_retry_after_failure, retry_after_failure, verification_outcome,
    verification_failed_text, MAX_RETRIES,
};
use crate::text::{owned, push_str};

verus! {

/// The settings a job runs with.
#[derive(Clone, Copy, Debug, PartialEq, Eq, Structural)]
pub struct RunSettings {
    pub auto_verify: bool,
    pub hash_algorithm: HashAlgorithm,
    pub enable_block_cloning: bool,
    pub is_move: bool,
}

/// What lies at the destination of a file about to be copied.
pub enum Destination {
    /// Nothing: the copy can start.
    Free,
    /// A file whose metadata (or the source's) could not be read; the text is the error.
    Unreadable(String),
    /// A file: the sizes and times of both, and the job's standing answer.
    Taken { facts: ConflictFacts, standing: Option<ConflictResolution> },
}

/// What the program reports back after doing what the machine asked.
pub enum FileEvent {
    /// The directory was created, or the text of the error.
    DirCreated(Result<(), String>),
    /// Whether the source was renamed into place (a move on one volume).
    RenameTried(bool),
    /// What lies at the destination.
    DestinationSeen(Destination),
    /// The user's answer to the conflict, or why none came.
    Answered(Result<ConflictResolution, String>),
    /// The first free name `stem (n).ext` next to the destination.
    FreeName(String),
    /// One copy attempt ended: its result, the bytes of the file reported so
    /// far, and the job's byte count as progress reports counted it.
    CopyAttempt { result: Result<(u64, Option<String>), String>, file_bytes: u64, overall: u64 },
    /// The checksums of source and destination, or why they could not be computed.
    Hashed { src: Result<String, String>, dest: Result<String, String> },
}

/// What the file comes to in the end, and so what is recorded for it.
pub enum FileOutcome {
    /// A directory entry whose directory was created: recorded done.
    DirectoryCreated,
    /// A directory entry whose directory could not be created: recorded in error.
    DirectoryFailed(String),
    /// Moved by renaming: recorded done with all its bytes.
    Renamed { bytes_total: u64 },
    /// Skipped because of a conflict: its bytes count as done for the job.
    Skipped { overall: u64 },
    /// Copied (or failed to copy): what is recorded, whether the source is to
    /// be deleted, and the job's byte count afterwards.
    Transferred {
        status: FileStatus,
        hash_src: Option<String>,
        hash_dest: Option<String>,
        error: Option<String>,
        delete_source: bool,
        overall: u64,
    },
}

/// What the machine asks the program to do next.
pub enum FileAction {
    /// Stop the whole job with this error.
    AbortJob(String),
    /// Create the destination directory.
    CreateDirectory,
    /// Rename the source into place if it is on the destination's volume.
    TryRename,
    /// Look at what lies at the destination.
    InspectDestination,
    /// Ask the user about the conflict.
    AskUser(ConflictFacts),
    /// Find the first free name for a renamed copy.
    FindFreeName,
    /// Copy the file (after a pause of `RETRY_PAUSE_SECS` when `retry`).
    Copy {
        start_offset: u64,
        expected_size: u64,
        hash_algorithm: Option<HashAlgorithm>,
        block_cloning: bool,
        retry: bool,
    },
    /// Compute the checksums of source and destination; the source's is
    /// known when the copy computed it.
    Verify { src_hash: Option<String> },
    /// The file is finished.
    Finish(FileOutcome),
}

/// Where the machine stands.
#[derive(Clone, Copy, Debug, PartialEq, Eq, Structural)]
pub enum FilePhase {
    AwaitDirectory,
    AwaitRename,
    AwaitDestination,
    AwaitAnswer(ConflictFacts),
    AwaitFreeName,
    AwaitCopy,
    AwaitHashes,
    Finished,
}

/// The transfer of one file.
pub struct FileRun {
    file: TransferFile,
    settings: RunSettings,
    overall: u64,
    phase: FilePhase,
    retries: u32,
    settled_overall: u64,
}

/// The event a phase waits for, and that the event keeps the job's byte
/// count within 64 bits where the step adds to it.
pub open spec fn accepts_event(
    phase: FilePhase,
    overall: u64,
    bytes_total: u64,
    bytes_done: u64,
    retries: u32,
    e: FileEvent,
) -> bool {
    match phase {
        FilePhase::AwaitDirectory => e is DirCreated,
        FilePhase::AwaitRename => e is RenameTried,
        FilePhase::AwaitDestination => match e {
            FileEvent::DestinationSeen(d) => match d {
                Destination::Taken { facts, standing } => spec_standing_action(standing, facts)
                    == Some(ConflictAction::Skip) ==> overall + bytes_total <= u64::MAX,
                _ => true,
            },
            _ => false,
        },
        FilePhase::AwaitAnswer(facts) => match e {
            FileEvent::Answered(r) => match r {
                Ok(a) => spec_conflict_action(spec_answer_decision(a, facts)) == ConflictAction::Skip
                    ==> overall + bytes_total <= u64::MAX,
                Err(_) => true,
            },
            _ => false,
        },
        FilePhase::AwaitFreeName => e is FreeName,
        FilePhase::AwaitCopy => match e {
            FileEvent::CopyAttempt { result, file_bytes, overall: reported } => retries
                <= MAX_RETRIES && reported >= overall && match result {
                Ok(r) => overall + (if r.0 >= bytes_done {
                    r.0 - bytes_done
                } else {
                    0
                }) <= u64::MAX,
                Err(_) => true,
            },
            _ => false,
        },
        FilePhase::AwaitHashes => e is Hashed,
        FilePhase::Finished => false,
    }
}

/// The text of a directory that could not be created.
pub open spec fn dir_failed_text(err: Seq<char>) -> Seq<char> {
    "Failed to create directory: "@ + err
}

impl FileRun {
    pub closed spec fn file(&self) -> TransferFile {
        self.file
    }

    pub closed spec fn settings(&self) -> RunSettings {
        self.settings
    }

    /// The job's byte count when the file started.
    pub closed spec fn overall(&self) -> u64 {
        self.overall
    }

    pub closed spec fn phase(&self) -> FilePhase {
        self.phase
    }

    /// Failed copy attempts that were retried.
    pub closed spec fn retries(&self) -> u32 {
        self.retries
    }

    /// The job's byte count after a successful copy, while verifying.
    pub closed spec fn settled_overall(&self) -> u64 {
        self.settled_overall
    }

    /// The job's byte count settled after a copy is never below the count
    /// the file started with.
    pub closed spec fn wf(&self) -> bool {
        self.settled_overall >= self.overall && self.retries <= MAX_RETRIES
    }

    pub open spec fn accepts(&self, e: FileEvent) -> bool {
        accepts_event(
            self.phase(),
            self.overall(),
            self.file().bytes_total,
            self.file().bytes_done,
            self.retries(),
            e,
        )
    }

    /// The first copy of this file.
    pub open spec fn first_copy(&self, a: FileAction) -> bool {
        a matches FileAction::Copy { start_offset, expected_size, hash_algorithm, block_cloning, retry }
            && start_offset == self.file().bytes_done && expected_size == self.file().bytes_total
            && hash_algorithm == (if self.settings().auto_verify {
            Some(self.settings().hash_algorithm)
        } else {
            None
        }) && block_cloning == self.settings().enable_block_cloning && !retry
    }

    /// The phase the machine waits in.
    pub fn current_phase(&self) -> (p: FilePhase)
        ensures
            p == self.phase(),
    {
        self.phase
    }

    /// Whether the machine takes this event now (see `accepts_event`).
    pub fn accepts_now(&self, e: &FileEvent) -> (b: bool)
        ensures
            b == self.accepts(*e),
    {
        match self.phase {
            FilePhase::AwaitDirectory => matches!(e, FileEvent::DirCreated(_)),
            FilePhase::AwaitRename => matches!(e, FileEvent::RenameTried(_)),
            FilePhase::AwaitDestination => match e {
                FileEvent::DestinationSeen(d) => match d {
                    Destination::Taken { facts, standing } => {
                        match standing_action(*standing, *facts) {
                            Some(ConflictAction::Skip) => self.file.bytes_total <= u64::MAX - self.overall,
                            _ => true,
                        }
                    },
                    _ => true,
                },
                _ => false,
            },
            FilePhase::AwaitAnswer(facts) => match e {
                FileEvent::Answered(r) => match r {
                    Ok(a) => match answered_action(*a, facts) {
                        ConflictAction::Skip => self.file.bytes_total <= u64::MAX - self.overall,
                        _ => true,
                    },
                    Err(_) => true,
                },
                _ => false,
            },
            FilePhase::AwaitFreeName => matches!(e, FileEvent::FreeName(_)),
            FilePhase::AwaitCopy => match e {
                FileEvent::CopyAttempt { result, overall: reported, .. } => self.retries <= MAX_RETRIES
                    && *reported >= self.overall && match result {
                    Ok(r) => {
                        let added = if r.0 >= self.file.bytes_done {
                            r.0 - self.file.bytes_done
                        } else {
                            0
                        };
                        added <= u64::MAX - self.overall
                    },
                    Err(_) => true,
                },
                _ => false,
            },
            FilePhase::AwaitHashes => matches!(e, FileEvent::Hashed { .. }),
            FilePhase::Finished => false,
        }
    }

    fn copy_action(&self, retry: bool) -> (a: FileAction)
        ensures
            a matches FileAction::Copy { start_offset, expected_size, hash_algorithm, block_cloning, retry: r }
                && expected_size == self.file().bytes_total && hash_algorithm == (if self.settings().auto_verify {
                Some(self.settings().hash_algorithm)
            } else {
                None
            }) && block_cloning == self.settings().enable_block_cloning && r == retry
                && start_offset == self.file().bytes_done,
    {
        FileAction::Copy {
            start_offset: self.file.bytes_done,
            expected_size: self.file.bytes_total,
            hash_algorithm: if self.settings.auto_verify {
                Some(self.settings.hash_algorithm)
            } else {
                None
            },
            block_cloning: self.settings.enable_block_cloning,
            retry,
        }
    }

    /// Starts the transfer of a file that still has to be transferred, given
    /// whether the job was cancelled and whether the source is a directory: a
    /// cancelled job stops; a directory is created; a move first tries a
    /// rename; anything else looks at its destination.
    pub fn begin(
        file: TransferFile,
        settings: RunSettings,
        overall: u64,
        cancelled: bool,
        is_dir: bool,
    ) -> (r: (FileRun, FileAction))
        ensures
            r.0.wf(),
            r.0.file() == file,
            r.0.settings() == settings,
            r.0.overall() == overall,
            r.0.retries() == 0,
            r.0.retries() <= MAX_RETRIES,
            cancelled ==> (r.1 matches FileAction::AbortJob(m) && m@ == cancelled_text())
                && r.0.phase() is Finished,
            !cancelled && is_dir ==> r.1 is CreateDirectory && r.0.phase() is AwaitDirectory,
            !cancelled && !is_dir && settings.is_move ==> r.1 is TryRename && r.0.phase() is AwaitRename,
            !cancelled && !is_dir && !settings.is_move ==> r.1 is InspectDestination && r.0.phase() is AwaitDestination,
    {
        let (phase, action) = if cancelled {
            (FilePhase::Finished, FileAction::AbortJob(cancelled_error()))
        } else if is_dir {
            (FilePhase::AwaitDirectory, FileAction::CreateDirectory)
        } else if settings.is_move {
            (FilePhase::AwaitRename, FileAction::TryRename)
        } else {
            (FilePhase::AwaitDestination, FileAction::InspectDestination)
        };
        (FileRun { file, settings, overall, phase, retries: 0, settled_overall: overall }, action)
    }

    /// The file record as it stands (its destination may have changed to a free name).
    pub fn current_file(&self) -> (f: &TransferFile)
        ensures
            *f == self.file(),
    {
        &self.file
    }

    /// Takes the program's report and says what to do next.
    pub fn step(&mut self, e: FileEvent) -> (a: FileAction)
        requires
            old(self).wf(),
            old(self).accepts(e),
        ensures
            final(self).wf(),
            // The retry count stays within its bound, and only a failed copy
            // attempt changes it.
            final(self).retries() <= MAX_RETRIES,
            !(e matches FileEvent::CopyAttempt { result, .. } && result is Err) ==> final(self).retries()
                == old(self).retries(),
            // A source is deleted only by a move whose file is done, and, when
            // checksums were compared, only when both were computed and agree.
            a matches FileAction::Finish(FileOutcome::Transferred { delete_source, status, .. }) ==> (delete_source
                ==> old(self).settings().is_move && status is Done && (e matches FileEvent::Hashed { src, dest }
                ==> src is Ok && dest is Ok && src->Ok_0@ == dest->Ok_0@)),
            // With verification on, a copied file is done only once its checksums were compared.
            a matches FileAction::Finish(FileOutcome::Transferred { status, .. }) ==> (old(self).settings().auto_verify
                && status is Done ==> e is Hashed),
            // The job's byte count never goes back when a file finishes.
            a matches FileAction::Finish(o) ==> spec_overall_after(old(self).overall(), o) >= old(self).overall(),
            final(self).settings() == old(self).settings(),
            final(self).overall() == old(self).overall(),
            final(self).file().src == old(self).file().src,
            final(self).file().bytes_total == old(self).file().bytes_total,
            // The file record changes only in its destination, on a free name,
            // and in its bytes done, on a successful copy.
            match e {
                FileEvent::FreeName(name) => final(self).file() == (TransferFile { dest: name, ..old(self).file() }),
                FileEvent::CopyAttempt { result, .. } => match result {
                    Ok(r) => final(self).file() == (TransferFile { bytes_done: r.0, ..old(self).file() }),
                    Err(_) => final(self).file() == old(self).file(),
                },
                _ => final(self).file() == old(self).file(),
            },
            // Checksums are computed only after a successful copy.
            final(self).phase() is AwaitHashes ==> (e matches FileEvent::CopyAttempt { result, .. } && result is Ok),
            // The job is stopped only by a cancellation, an unreadable destination or a missing answer.
            a is AbortJob ==> (e is DestinationSeen || e is Answered),
            // A directory entry ends once its directory is made or fails.
            e matches FileEvent::DirCreated(r) ==> final(self).phase() is Finished && match r {
                Ok(_) => a matches FileAction::Finish(FileOutcome::DirectoryCreated),
                Err(err) => a matches FileAction::Finish(FileOutcome::DirectoryFailed(m)) && m@
                    == dir_failed_text(err@),
            },
            // A successful rename ends the file; otherwise the destination is examined.
            e matches FileEvent::RenameTried(ok) ==> (ok ==> final(self).phase() is Finished && (a matches FileAction::Finish(
                FileOutcome::Renamed { bytes_total },
            ) && bytes_total == old(self).file().bytes_total)) && (!ok ==> final(self).phase() is AwaitDestination
                && a is InspectDestination),
            // What lies at the destination.
            e matches FileEvent::DestinationSeen(d) ==> match d {
                Destination::Free => final(self).phase() is AwaitCopy && final(self).first_copy(a),
                Destination::Unreadable(err) => final(self).phase() is Finished && (a matches FileAction::AbortJob(m)
                    && m@ == err@),
                Destination::Taken { facts, standing } => match spec_standing_action(standing, facts) {
                    None => final(self).phase() == FilePhase::AwaitAnswer(facts) && a == FileAction::AskUser(facts),
                    Some(act) => Self::applied(*old(self), *final(self), act, a),
                },
            },
            // The user's answer.
            e matches FileEvent::Answered(r) ==> match r {
                Err(err) => final(self).phase() is Finished && (a matches FileAction::AbortJob(m) && m@ == err@),
                Ok(ans) => old(self).phase() matches FilePhase::AwaitAnswer(facts) && Self::applied(
                    *old(self),
                    *final(self),
                    spec_conflict_action(spec_answer_decision(ans, facts)),
                    a,
                ),
            },
            // A renamed copy goes to the free name.
            e matches FileEvent::FreeName(name) ==> final(self).phase() is AwaitCopy && final(self).file().dest@
                == name@ && final(self).file().bytes_done == old(self).file().bytes_done && final(self).first_copy(a),
            // A copy attempt.
            e matches FileEvent::CopyAttempt { result, file_bytes, overall } ==> match result {
                Ok(r) => {
                    let settled = spec_overall_after_copy(old(self).overall(), overall, old(self).file().bytes_done, r.0);
                    &&& final(self).file().bytes_done == r.0
                    &&& old(self).settings().auto_verify ==> final(self).phase() is AwaitHashes
                        && final(self).settled_overall() == settled
                        && (a matches FileAction::Verify { src_hash } && src_hash == r.1)
                    &&& !old(self).settings().auto_verify ==> final(self).phase() is Finished && (a matches FileAction::Finish(
                        FileOutcome::Transferred { status, hash_src, hash_dest, error, delete_source, overall: o },
                    ) && status is Done && hash_src is None && hash_dest is None && error is None
                        && delete_source == old(self).settings().is_move && o == settled)
                },
                Err(err) => match spec_retry_after_failure(err@, old(self).retries()) {
                    Some(n) => final(self).phase() is AwaitCopy && final(self).retries() == n && (a matches FileAction::Copy {
                        start_offset, expected_size, hash_algorithm, block_cloning, retry }
                        && start_offset == file_bytes && expected_size == old(self).file().bytes_total && retry
                        && hash_algorithm == (if old(self).settings().auto_verify {
                            Some(old(self).settings().hash_algorithm)
                        } else {
                            None
                        }) && block_cloning == old(self).settings().enable_block_cloning),
                    None => final(self).phase() is Finished && (a matches FileAction::Finish(
                        FileOutcome::Transferred { status, hash_src, hash_dest, error, delete_source, overall: o },
                    ) && (status matches FileStatus::Error(m) && m@ == err@) && hash_src is None
                        && hash_dest is None && (error matches Some(m) && m@ == err@) && !delete_source
                        && o == overall),
                },
            },
            // The checksums decide the file.
            e matches FileEvent::Hashed { src, dest } ==> final(self).phase() is Finished && (a matches FileAction::Finish(
                FileOutcome::Transferred { status, hash_src, hash_dest, error, delete_source, overall: o },
            ) && o == old(self).settled_overall() && delete_source == (old(self).settings().is_move && status is Done)
                && Self::verified(src, dest, status, hash_src, hash_dest, error)),
    {
        match e {
            FileEvent::DirCreated(r) => {
                self.phase = FilePhase::Finished;
                match r {
                    Ok(()) => FileAction::Finish(FileOutcome::DirectoryCreated),
                    Err(err) => {
                        let mut m = owned("Failed to create directory: ");
                        push_str(&mut m, err.as_str());
                        FileAction::Finish(FileOutcome::DirectoryFailed(m))
                    },
                }
            },
            FileEvent::RenameTried(ok) => {
                if ok {
                    self.phase = FilePhase::Finished;
                    FileAction::Finish(FileOutcome::Renamed { bytes_total: self.file.bytes_total })
                } else {
                    self.phase = FilePhase::AwaitDestination;
                    FileAction::InspectDestination
                }
            },
            FileEvent::DestinationSeen(d) => match d {
                Destination::Free => {
                    self.phase = FilePhase::AwaitCopy;
                    self.copy_action(false)
                },
                Destination::Unreadable(err) => {
                    self.phase = FilePhase::Finished;
                    FileAction::AbortJob(err)
                },
                Destination::Taken { facts, standing } => match standing_action(standing, facts) {
                    None => {
                        self.phase = FilePhase::AwaitAnswer(facts);
                        FileAction::AskUser(facts)
                    },
                    Some(act) => self.apply(act),
                },
            },
            FileEvent::Answered(r) => match r {
                Err(err) => {
                    self.phase = FilePhase::Finished;
                    FileAction::AbortJob(err)
                },
                Ok(ans) => {
                    let facts = match self.phase {
                        FilePhase::AwaitAnswer(f) => f,
                        _ => {
                            assert(false);
                            ConflictFacts { src_size: 0, src_modified: 0, dest_size: 0, dest_modified: 0 }
                        },
                    };
                    self.apply(answered_action(ans, facts))
                },
            },
            FileEvent::FreeName(name) => {
                self.file.dest = name;
                self.phase = FilePhase::AwaitCopy;
                self.copy_action(false)
            },
            FileEvent::CopyAttempt { result, file_bytes, overall } => match result {
                Ok(r) => {
                    let settled = overall_after_copy(self.overall, overall, self.file.bytes_done, r.0);
                    self.file.bytes_done = r.0;
                    if self.settings.auto_verify {
                        self.phase = FilePhase::AwaitHashes;
                        self.settled_overall = settled;
                        FileAction::Verify { src_hash: r.1 }
                    } else {
                        self.phase = FilePhase::Finished;
                        FileAction::Finish(
                            FileOutcome::Transferred {
                                status: FileStatus::Done,
                                hash_src: None,
                                hash_dest: None,
                                error: None,
                                delete_source: self.settings.is_move,
                                overall: settled,
                            },
                        )
                    }
                },
                Err(err) => match retry_after_failure(err.as_str(), self.retries) {
                    Some(n) => {
                        self.retries = n;
                        self.phase = FilePhase::AwaitCopy;
                        FileAction::Copy {
                            start_offset: file_bytes,
                            expected_size: self.file.bytes_total,
                            hash_algorithm: if self.settings.auto_verify {
                                Some(self.settings.hash_algorithm)
                            } else {
                                None
                            },
                            block_cloning: self.settings.enable_block_cloning,
                            retry: true,
                        }
                    },
                    None => {
                        self.phase = FilePhase::Finished;
                        FileAction::Finish(
                            FileOutcome::Transferred {
                                status: FileStatus::Error(err.clone()),
                                hash_src: None,
                                hash_dest: None,
                                error: Some(err),
                                delete_source: false,
                                overall,
                            },
                        )
                    },
                },
            },
            FileEvent::Hashed { src, dest } => {
                let o = verification_outcome(&src, &dest);
                self.phase = FilePhase::Finished;
                let delete = deletes_source(self.settings.is_move, &o.status);
                FileAction::Finish(
                    FileOutcome::Transferred {
                        status: o.status,
                        hash_src: o.hash_src,
                        hash_dest: o.hash_dest,
                        error: o.error,
                        delete_source: delete,
                        overall: self.settled_overall,
                    },
                )
            },
        }
    }

    /// What a decided conflict leads to: a skip finishes the file with its
    /// bytes counted, a rename looks for a free name, an overwrite copies.
    pub open spec fn applied(pre: FileRun, post: FileRun, act: ConflictAction, a: FileAction) -> bool {
        &&& post.file() == pre.file()
        &&& post.retries() == pre.retries()
        &&& match act {
            ConflictAction::Skip => post.phase() is Finished && (a matches FileAction::Finish(
                FileOutcome::Skipped { overall },
            ) && overall == pre.overall() + pre.file().bytes_total),
            ConflictAction::Rename => post.phase() is AwaitFreeName && a is FindFreeName,
            ConflictAction::Overwrite => post.phase() is AwaitCopy && post.first_copy(a),
        }
    }

    fn apply(&mut self, act: ConflictAction) -> (a: FileAction)
        requires
            old(self).wf(),
            act == ConflictAction::Skip ==> old(self).overall() + old(self).file().bytes_total <= u64::MAX,
        ensures
            final(self).wf(),
            final(self).settings() == old(self).settings(),
            final(self).overall() == old(self).overall(),
            Self::applied(*old(self), *final(self), act, a),
    {
        match act {
            ConflictAction::Skip => {
                self.phase = FilePhase::Finished;
                FileAction::Finish(FileOutcome::Skipped { overall: self.overall + self.file.bytes_total })
            },
            ConflictAction::Rename => {
                self.phase = FilePhase::AwaitFreeName;
                FileAction::FindFreeName
            },
            ConflictAction::Overwrite => {
                self.phase = FilePhase::AwaitCopy;
                self.copy_action(false)
            },
        }
    }

    /// What the checksums make of a copied file: done with both checksums
    /// when they agree, a mismatch error when not, a verification error when
    /// either could not be computed.
    pub open spec fn verified(
        src: Result<String, String>,
        dest: Result<String, String>,
        status: FileStatus,
        hash_src: Option<String>,
        hash_dest: Option<String>,
        error: Option<String>,
    ) -> bool {
        if src is Ok && dest is Ok {
            &&& hash_src matches Some(h) && h@ == src->Ok_0@
            &&& hash_dest matches Some(h) && h@ == dest->Ok_0@
            &&& src->Ok_0@ == dest->Ok_0@ ==> status is Done && error is None
            &&& src->Ok_0@ != dest->Ok_0@ ==> (status matches FileStatus::Error(m) && m@ == mismatch_text())
                && (error matches Some(m) && m@ == mismatch_text())
        } else {
            let msg = verification_failed_text(
                match src { Ok(_) => None::<Seq<char>>, Err(e) => Some(e@) },
                match dest { Ok(_) => None::<Seq<char>>, Err(e) => Some(e@) },
            );
            &&& hash_src is None
            &&& hash_dest is None
            &&& status matches FileStatus::Error(m) && m@ == msg
            &&& error matches Some(m) && m@ == msg
        }
    }
}

/// A file whose checksums were compared is recorded done only when both
/// checksums were computed and agree.
pub proof fn law_done_only_when_checksums_agree(
    src: Result<String, String>,
    dest: Result<String, String>,
    status: FileStatus,
    hash_src: Option<String>,
    hash_dest: Option<String>,
    error: Option<String>,
)
    requires
        FileRun::verified(src, dest, status, hash_src, hash_dest, error),
        status is Done,
    ensures
        src is Ok && dest is Ok && src->Ok_0@ == dest->Ok_0@,
{
}

/// The job's byte count after a finished file: unchanged for directories and
/// renamed files, the count the outcome carries for skipped and copied files.
pub open spec fn spec_overall_after(overall: u64, o: FileOutcome) -> u64 {
    match o {
        FileOutcome::Skipped { overall: n } => n,
        FileOutcome::Transferred { overall: n, .. } => n,
        _ => overall,
    }
}

/// The job's byte count after a finished file.
pub fn overall_after(overall: u64, o: &FileOutcome) -> (n: u64)
    ensures
        n == spec_overall_after(overall, *o),
{
    match o {
        FileOutcome::Skipped { overall: n } => *n,
        FileOutcome::Transferred { overall: n, .. } => *n,
        _ => overall,
    }
}

} // verus!
