//! Name conflicts at the destination: the user's answers, the answers that
//! hold for a whole job, and what a conflict comes to for one file.
use vstd::prelude::*;
use crate::ids::{job_id_text, uuid_text, uuid_v4, uuid_v4_from};
use crate::keyed::KeyedVec;
use crate::text::{decimal, owned, u64_to_decimal, push_str, push_char};

verus! {

/// The answers a user can give to a name conflict; the `All` answers hold for
/// the rest of the job.
#[derive(Clone, Copy, Debug, PartialEq, Eq, Structural)]
pub enum ConflictResolution {
    Overwrite,
    Skip,
    Rename,
    OverwriteAll,
    SkipAll,
    RenameAll,
    OverwriteOlder,
    OverwriteOlderAll,
    SkipSameSizeDate,
    SkipSameSizeDateAll,
}

/// What the user is shown about a conflict.
#[derive(Clone, Debug)]
pub struct ConflictInfo {
    pub conflict_id: String,
    pub job_id: String,
    pub file_path: String,
    pub src_size: u64,
    pub src_modified: u64,
    pub dest_size: u64,
    pub dest_modified: u64,
}

/// The answers that hold for the rest of the job.
pub open spec fn is_job_wide(r: ConflictResolution) -> bool {
    match r {
        ConflictResolution::OverwriteAll | ConflictResolution::SkipAll
        | ConflictResolution::RenameAll | ConflictResolution::OverwriteOlderAll
        | ConflictResolution::SkipSameSizeDateAll => true,
        _ => false,
    }
}

/// Whether an answer holds for the rest of the job.
pub fn job_wide(r: ConflictResolution) -> (b: bool)
    ensures
        b == is_job_wide(r),
{
    match r {
        ConflictResolution::OverwriteAll | ConflictResolution::SkipAll
        | ConflictResolution::RenameAll | ConflictResolution::OverwriteOlderAll
        | ConflictResolution::SkipSameSizeDateAll => true,
        _ => false,
    }
}

/// The sizes and modification times (seconds since the epoch) of the source
/// and of the file already at the destination.
#[derive(Clone, Copy, Debug, PartialEq, Eq, Structural)]
pub struct ConflictFacts {
    pub src_size: u64,
    pub src_modified: u64,
    pub dest_size: u64,
    pub dest_modified: u64,
}

/// "Overwrite older": overwrite when the source is newer, else skip.
pub open spec fn overwrite_older(f: ConflictFacts) -> ConflictResolution {
    if f.src_modified > f.dest_modified {
        ConflictResolution::Overwrite
    } else {
        ConflictResolution::Skip
    }
}

/// "Skip same size and date": skip when both size and time agree, else overwrite.
pub open spec fn skip_same_size_date(f: ConflictFacts) -> ConflictResolution {
    if f.src_size == f.dest_size && f.src_modified == f.dest_modified {
        ConflictResolution::Skip
    } else {
        ConflictResolution::Overwrite
    }
}

/// What a job-wide answer decides for a later conflict of the job; nothing for
/// an answer that is not job-wide.
pub open spec fn spec_job_wide_decision(r: ConflictResolution, f: ConflictFacts) -> Option<ConflictResolution> {
    match r {
        ConflictResolution::SkipAll => Some(ConflictResolution::Skip),
        ConflictResolution::OverwriteAll => Some(ConflictResolution::Overwrite),
        ConflictResolution::RenameAll => Some(ConflictResolution::Rename),
        ConflictResolution::OverwriteOlderAll => Some(overwrite_older(f)),
        ConflictResolution::SkipSameSizeDateAll => Some(skip_same_size_date(f)),
        _ => None,
    }
}

/// What the user's answer decides for the conflict it was given for.
pub open spec fn spec_answer_decision(r: ConflictResolution, f: ConflictFacts) -> ConflictResolution {
    match r {
        ConflictResolution::OverwriteOlder | ConflictResolution::OverwriteOlderAll => overwrite_older(f),
        ConflictResolution::SkipSameSizeDate | ConflictResolution::SkipSameSizeDateAll => skip_same_size_date(f),
        other => other,
    }
}

/// Decides a conflict from the job's standing answer, if it has one that applies.
pub fn job_wide_decision(r: ConflictResolution, f: ConflictFacts) -> (d: Option<ConflictResolution>)
    ensures
        d == spec_job_wide_decision(r, f),
{
    match r {
        ConflictResolution::SkipAll => Some(ConflictResolution::Skip),
        ConflictResolution::OverwriteAll => Some(ConflictResolution::Overwrite),
        ConflictResolution::RenameAll => Some(ConflictResolution::Rename),
        ConflictResolution::OverwriteOlderAll => Some(
            if f.src_modified > f.dest_modified {
                ConflictResolution::Overwrite
            } else {
                ConflictResolution::Skip
            },
        ),
        ConflictResolution::SkipSameSizeDateAll => Some(
            if f.src_size == f.dest_size && f.src_modified == f.dest_modified {
                ConflictResolution::Skip
            } else {
                ConflictResolution::Overwrite
            },
        ),
        _ => None,
    }
}

/// Decides a conflict from the user's answer to it.
pub fn answer_decision(r: ConflictResolution, f: ConflictFacts) -> (d: ConflictResolution)
    ensures
        d == spec_answer_decision(r, f),
{
    match r {
        ConflictResolution::OverwriteOlder | ConflictResolution::OverwriteOlderAll => {
            if f.src_modified > f.dest_modified {
                ConflictResolution::Overwrite
            } else {
                ConflictResolution::Skip
            }
        },
        ConflictResolution::SkipSameSizeDate | ConflictResolution::SkipSameSizeDateAll => {
            if f.src_size == f.dest_size && f.src_modified == f.dest_modified {
                ConflictResolution::Skip
            } else {
                ConflictResolution::Overwrite
            }
        },
        other => other,
    }
}

/// What happens to the file once its conflict is decided.
#[derive(Clone, Copy, Debug, PartialEq, Eq, Structural)]
pub enum ConflictAction {
    /// The file is skipped and counted as done.
    Skip,
    /// The file goes to the first free name `stem (n).ext`.
    Rename,
    /// The file is written over the existing one.
    Overwrite,
}

/// The action a decision comes to; the decisions that are neither skip nor
/// rename write over the existing file.
pub open spec fn spec_conflict_action(r: ConflictResolution) -> ConflictAction {
    match r {
        ConflictResolution::Skip | ConflictResolution::SkipAll => ConflictAction::Skip,
        ConflictResolution::Rename | ConflictResolution::RenameAll => ConflictAction::Rename,
        _ => ConflictAction::Overwrite,
    }
}

/// The action a decided conflict comes to.
pub fn conflict_action(r: ConflictResolution) -> (a: ConflictAction)
    ensures
        a == spec_conflict_action(r),
{
    match r {
        ConflictResolution::Skip | ConflictResolution::SkipAll => ConflictAction::Skip,
        ConflictResolution::Rename | ConflictResolution::RenameAll => ConflictAction::Rename,
        _ => ConflictAction::Overwrite,
    }
}

/// A job-wide answer does to every later conflict of the job what it did to
/// the conflict it answered, given the same sizes and times.
pub proof fn law_job_wide_answer_acts_alike_later(r: ConflictResolution, f: ConflictFacts)
    requires
        is_job_wide(r),
    ensures
        spec_job_wide_decision(r, f) is Some,
        spec_conflict_action(spec_job_wide_decision(r, f)->0) == spec_conflict_action(
            spec_answer_decision(r, f),
        ),
{
}

/// An answer does what it is named for. The overwrite answers write over
/// the existing file, the skip answers skip the file, the rename answers copy
/// it to a free name; no other answer skips or renames. An answer and its
/// job-wide form act alike, and a decision the user gave directly is carried
/// out as given, whatever the sizes and times.
pub proof fn law_answers_act_as_named(r: ConflictResolution, f: ConflictFacts)
    ensures
        (r is Overwrite || r is OverwriteAll) ==> spec_conflict_action(r) == ConflictAction::Overwrite,
        (r is Skip || r is SkipAll) ==> spec_conflict_action(r) == ConflictAction::Skip,
        (r is Rename || r is RenameAll) ==> spec_conflict_action(r) == ConflictAction::Rename,
        spec_conflict_action(r) == ConflictAction::Skip ==> (r is Skip || r is SkipAll),
        spec_conflict_action(r) == ConflictAction::Rename ==> (r is Rename || r is RenameAll),
        spec_conflict_action(ConflictResolution::Overwrite) == spec_conflict_action(ConflictResolution::OverwriteAll),
        spec_conflict_action(ConflictResolution::Skip) == spec_conflict_action(ConflictResolution::SkipAll),
        spec_conflict_action(ConflictResolution::Rename) == spec_conflict_action(ConflictResolution::RenameAll),
        spec_conflict_action(spec_answer_decision(ConflictResolution::Overwrite, f)) == ConflictAction::Overwrite,
        spec_conflict_action(spec_answer_decision(ConflictResolution::OverwriteAll, f)) == ConflictAction::Overwrite,
        spec_conflict_action(spec_answer_decision(ConflictResolution::Skip, f)) == ConflictAction::Skip,
        spec_conflict_action(spec_answer_decision(ConflictResolution::SkipAll, f)) == ConflictAction::Skip,
        spec_conflict_action(spec_answer_decision(ConflictResolution::Rename, f)) == ConflictAction::Rename,
        spec_conflict_action(spec_answer_decision(ConflictResolution::RenameAll, f)) == ConflictAction::Rename,
{
}

/// The job-wide answers are exactly the five "All" answers; only they stand
/// for later conflicts of the job, and each decides a later conflict as its
/// per-file form would.
pub proof fn law_only_all_answers_stand(r: ConflictResolution, f: ConflictFacts)
    ensures
        is_job_wide(r) <==> (r is OverwriteAll || r is SkipAll || r is RenameAll || r is OverwriteOlderAll
            || r is SkipSameSizeDateAll),
        spec_job_wide_decision(r, f) is Some <==> is_job_wide(r),
        spec_job_wide_decision(ConflictResolution::OverwriteAll, f) == Some(ConflictResolution::Overwrite),
        spec_job_wide_decision(ConflictResolution::SkipAll, f) == Some(ConflictResolution::Skip),
        spec_job_wide_decision(ConflictResolution::RenameAll, f) == Some(ConflictResolution::Rename),
{
}

/// "Overwrite older" goes by the modification dates alone: the source
/// replaces the destination exactly when it is newer, a newer (or equally
/// old) destination is kept, the sizes play no part, and the per-file and
/// job-wide forms, asked or standing, decide alike.
pub proof fn law_overwrite_older_goes_by_date(f: ConflictFacts, g: ConflictFacts)
    ensures
        spec_answer_decision(ConflictResolution::OverwriteOlder, f) == ConflictResolution::Overwrite
            <==> f.src_modified > f.dest_modified,
        spec_answer_decision(ConflictResolution::OverwriteOlder, f) == ConflictResolution::Skip
            <==> f.src_modified <= f.dest_modified,
        f.src_modified == g.src_modified && f.dest_modified == g.dest_modified ==> spec_answer_decision(
            ConflictResolution::OverwriteOlder,
            f,
        ) == spec_answer_decision(ConflictResolution::OverwriteOlder, g),
        spec_answer_decision(ConflictResolution::OverwriteOlder, f) == spec_answer_decision(
            ConflictResolution::OverwriteOlderAll,
            f,
        ),
        spec_job_wide_decision(ConflictResolution::OverwriteOlderAll, f) == Some(
            spec_answer_decision(ConflictResolution::OverwriteOlder, f),
        ),
{
}

/// "Skip same size and date" skips exactly the files whose size and
/// modification date both match the destination's, overwrites all others,
/// and its per-file and job-wide forms, asked or standing, decide alike.
pub proof fn law_skip_same_size_date_skips_only_identical(f: ConflictFacts)
    ensures
        spec_answer_decision(ConflictResolution::SkipSameSizeDate, f) == ConflictResolution::Skip
            <==> (f.src_size == f.dest_size && f.src_modified == f.dest_modified),
        spec_answer_decision(ConflictResolution::SkipSameSizeDate, f) == ConflictResolution::Overwrite
            <==> !(f.src_size == f.dest_size && f.src_modified == f.dest_modified),
        spec_answer_decision(ConflictResolution::SkipSameSizeDate, f) == spec_answer_decision(
            ConflictResolution::SkipSameSizeDateAll,
            f,
        ),
        spec_job_wide_decision(ConflictResolution::SkipSameSizeDateAll, f) == Some(
            spec_answer_decision(ConflictResolution::SkipSameSizeDate, f),
        ),
{
}

/// The action for a conflict when the job's standing answer (if any)
/// decides it; nothing when the user has to be asked.
pub open spec fn spec_standing_action(standing: Option<ConflictResolution>, f: ConflictFacts) -> Option<ConflictAction> {
    match standing {
        Some(r) => match spec_job_wide_decision(r, f) {
            Some(d) => Some(spec_conflict_action(d)),
            None => None,
        },
        None => None,
    }
}

/// Decides a conflict from the job's standing answer, when that is enough.
pub fn standing_action(standing: Option<ConflictResolution>, f: ConflictFacts) -> (a: Option<ConflictAction>)
    ensures
        a == spec_standing_action(standing, f),
{
    match standing {
        Some(r) => match job_wide_decision(r, f) {
            Some(d) => Some(conflict_action(d)),
            None => None,
        },
        None => None,
    }
}

/// Decides a conflict from the user's answer to it.
pub fn answered_action(answer: ConflictResolution, f: ConflictFacts) -> (a: ConflictAction)
    ensures
        a == spec_conflict_action(spec_answer_decision(answer, f)),
{
    conflict_action(answer_decision(answer, f))
}

/// The file name tried for the `counter`-th renamed copy: `stem (counter).ext`,
/// or `stem (counter)` without an extension.
pub open spec fn rename_name(stem: Seq<char>, ext: Seq<char>, counter: u64) -> Seq<char> {
    if ext.len() == 0 {
        stem + " ("@ + decimal(counter as nat) + ")"@
    } else {
        stem + " ("@ + decimal(counter as nat) + ")."@ + ext
    }
}

/// Builds the `counter`-th candidate name for a renamed copy.
pub fn rename_candidate(stem: &str, ext: &str, counter: u64) -> (s: String)
    ensures
        s@ == rename_name(stem@, ext@, counter),
{
    let mut s = String::new();
    push_str(&mut s, stem);
    push_str(&mut s, " (");
    let c = u64_to_decimal(counter);
    push_str(&mut s, c.as_str());
    push_char(&mut s, ')');
    proof {
        reveal_strlit(")");
        reveal_strlit(").");
    }
    if ext.is_empty() {
        assert(s@ =~= rename_name(stem@, ext@, counter));
    } else {
        push_char(&mut s, '.');
        push_str(&mut s, ext);
        assert(s@ =~= rename_name(stem@, ext@, counter));
    }
    s
}

/// How asking about a conflict begins.
pub enum AskStart {
    /// The job has a standing answer: no question is asked.
    Known(ConflictResolution),
    /// A question was opened under a new identifier; its answer is collected
    /// with `finish_ask` once `resolve` has given it.
    Wait { conflict_id: String },
}

/// The conflicts asked about and the standing answers of each job.
pub struct ConflictManager {
    asks: KeyedVec<Option<ConflictResolution>>,
    job_resolutions: KeyedVec<ConflictResolution>,
}

impl ConflictManager {
    /// Each open question: its answer once given, nothing while it waits.
    pub closed spec fn asks(&self) -> Map<Seq<char>, Option<ConflictResolution>> {
        self.asks.view()
    }

    /// The conflicts waiting for an answer.
    pub open spec fn pending(&self) -> Set<Seq<char>> {
        Set::new(|k: Seq<char>| self.asks().contains_key(k) && self.asks()[k] is None)
    }

    /// The answer given to a question and not yet collected.
    pub open spec fn answer_of(&self, conflict_id: Seq<char>) -> Option<ConflictResolution> {
        if self.asks().contains_key(conflict_id) {
            self.asks()[conflict_id]
        } else {
            None
        }
    }

    /// The standing answer of each job that has one.
    pub closed spec fn resolutions(&self) -> Map<Seq<char>, ConflictResolution> {
        self.job_resolutions.view()
    }

    pub closed spec fn wf(&self) -> bool {
        self.asks.wf() && self.job_resolutions.wf()
    }

    /// No conflicts and no standing answers.
    pub fn new() -> (m: ConflictManager)
        ensures
            m.wf(),
            m.asks() == Map::<Seq<char>, Option<ConflictResolution>>::empty(),
            m.resolutions() == Map::<Seq<char>, ConflictResolution>::empty(),
    {
        ConflictManager { asks: KeyedVec::new(), job_resolutions: KeyedVec::new() }
    }

    /// The job's standing answer, if it has one.
    pub fn get_job_resolution(&self, job_id: &str) -> (r: Option<ConflictResolution>)
        requires
            self.wf(),
        ensures
            r == (if self.resolutions().contains_key(job_id@) {
                Some(self.resolutions()[job_id@])
            } else {
                None
            }),
    {
        match self.job_resolutions.get(job_id) {
            Some(r) => Some(*r),
            None => None,
        }
    }

    /// Records a standing answer for the job, replacing any earlier one.
    pub fn set_job_resolution(&mut self, job_id: String, resolution: ConflictResolution)
        requires
            old(self).wf(),
        ensures
            final(self).wf(),
            final(self).resolutions() == old(self).resolutions().insert(job_id@, resolution),
            final(self).asks() == old(self).asks(),
    {
        self.job_resolutions.insert(job_id, resolution);
    }

    /// Forgets the job's standing answer.
    pub fn clear_job(&mut self, job_id: &str)
        requires
            old(self).wf(),
        ensures
            final(self).wf(),
            final(self).resolutions() == old(self).resolutions().remove(job_id@),
            final(self).asks() == old(self).asks(),
    {
        let _ = self.job_resolutions.remove(job_id);
    }

    /// The first step of asking the user about a conflict of a job: the job's
    /// standing answer when it has one (nothing changes), else a new question
    /// under the version-4 UUID made from `random`, waiting for its answer.
    pub fn begin_ask(&mut self, job_id: &str, random: u128) -> (r: AskStart)
        requires
            old(self).wf(),
        ensures
            final(self).wf(),
            final(self).resolutions() == old(self).resolutions(),
            old(self).resolutions().contains_key(job_id@) ==> (r matches AskStart::Known(res) && res
                == old(self).resolutions()[job_id@]) && final(self).asks() == old(self).asks(),
            !old(self).resolutions().contains_key(job_id@) ==> (r matches AskStart::Wait { conflict_id }
                && conflict_id@ == uuid_text(uuid_v4_from(random))
                && final(self).asks() == old(self).asks().insert(conflict_id@, None)),
    {
        match self.get_job_resolution(job_id) {
            Some(res) => AskStart::Known(res),
            None => {
                let v = uuid_v4(random);
                let conflict_id = job_id_text(v);
                self.asks.insert(conflict_id.clone(), None);
                AskStart::Wait { conflict_id }
            },
        }
    }

    /// Whether a question waits for its answer.
    pub fn is_pending(&self, conflict_id: &str) -> (r: bool)
        requires
            self.wf(),
        ensures
            r == self.pending().contains(conflict_id@),
    {
        match self.asks.get(conflict_id) {
            Some(a) => a.is_none(),
            None => false,
        }
    }

    /// The identifiers of the questions waiting for an answer, each once.
    pub fn pending_ids(&self) -> (r: Vec<String>)
        requires
            self.wf(),
        ensures
            forall|k: Seq<char>| self.pending().contains(k) <==> exists|i: int|
                0 <= i < r@.len() && #[trigger] r@[i]@ == k,
            forall|i: int, j: int| 0 <= i < r@.len() && 0 <= j < r@.len() && i != j ==> r@[i]@ != r@[j]@,
    {
        let keys = self.asks.keys();
        let mut out: Vec<String> = Vec::new();
        let mut i: usize = 0;
        while i < keys.len()
            invariant
                i <= keys@.len(),
                self.wf(),
                forall|k: Seq<char>| self.asks().contains_key(k) <==> exists|m: int|
                    0 <= m < keys@.len() && #[trigger] keys@[m]@ == k,
                forall|m: int, n: int|
                    0 <= m < keys@.len() && 0 <= n < keys@.len() && m != n ==> keys@[m]@ != keys@[n]@,
                forall|j: int| 0 <= j < out@.len() ==> #[trigger] self.pending().contains(out@[j]@)
                    && exists|m: int| 0 <= m < i && keys@[m]@ == out@[j]@,
                forall|m: int| 0 <= m < i && self.pending().contains(#[trigger] keys@[m]@) ==> exists|j: int|
                    0 <= j < out@.len() && out@[j]@ == keys@[m]@,
                forall|a: int, b: int| 0 <= a < out@.len() && 0 <= b < out@.len() && a != b ==> out@[a]@
                    != out@[b]@,
            decreases keys.len() - i,
        {
            let k = &keys[i];
            let ghost before = out@;
            let ghost ii = i as int;
            let p = self.is_pending(k.as_str());
            assert(p == self.pending().contains(keys@[ii]@));
            if p {
                out.push(k.clone());
                assert(out@[before.len() as int] == keys@[ii]);
                assert(out@.len() == before.len() + 1);
            } else {
                assert(out@ == before);
            }
            i = i + 1;
            proof {
                assert forall|j: int| 0 <= j < out@.len() implies #[trigger] self.pending().contains(out@[j]@)
                    && exists|m: int| 0 <= m < i && keys@[m]@ == out@[j]@ by {
                    if j < before.len() {
                        assert(out@[j] == before[j]);
                        assert(self.pending().contains(before[j]@));
                        let m = choose|m: int| 0 <= m < ii && keys@[m]@ == before[j]@;
                        assert(0 <= m < i && keys@[m]@ == out@[j]@);
                    } else {
                        assert(p && j == before.len());
                        assert(keys@[ii]@ == out@[j]@);
                    }
                }
                assert forall|m: int| 0 <= m < i && self.pending().contains(#[trigger] keys@[m]@) implies exists|j: int|
                    0 <= j < out@.len() && out@[j]@ == keys@[m]@ by {
                    if m < ii {
                        let j = choose|j: int| 0 <= j < before.len() && before[j]@ == keys@[m]@;
                        assert(out@[j] == before[j]);
                    } else {
                        assert(out@[before.len() as int]@ == keys@[m]@);
                    }
                }
                assert forall|a: int, b: int| 0 <= a < out@.len() && 0 <= b < out@.len() && a != b implies out@[a]@
                    != out@[b]@ by {
                    if a < before.len() && b < before.len() {
                        assert(out@[a] == before[a] && out@[b] == before[b]);
                    } else if a < before.len() {
                        assert(out@[a] == before[a]);
                        assert(self.pending().contains(before[a]@));
                        let m = choose|m: int| 0 <= m < ii && keys@[m]@ == before[a]@;
                        assert(keys@[m]@ != keys@[ii]@);
                    } else {
                        assert(out@[b] == before[b]);
                        assert(self.pending().contains(before[b]@));
                        let m = choose|m: int| 0 <= m < ii && keys@[m]@ == before[b]@;
                        assert(keys@[m]@ != keys@[ii]@);
                    }
                }
            }
        }
        proof {
            assert forall|k: Seq<char>| self.pending().contains(k) implies exists|j: int|
                0 <= j < out@.len() && #[trigger] out@[j]@ == k by {
                assert(self.asks().contains_key(k));
                let m = choose|m: int| 0 <= m < keys@.len() && #[trigger] keys@[m]@ == k;
                assert(self.pending().contains(keys@[m]@));
            }
        }
        out
    }

    /// Gives the answer to the question waiting under `conflict_id`. Returns
    /// whether such a question was waiting; if so, `resolution` is now its
    /// answer and it waits no more, else nothing changes.
    pub fn resolve(&mut self, conflict_id: &str, resolution: ConflictResolution) -> (r: bool)
        requires
            old(self).wf(),
        ensures
            final(self).wf(),
            r == old(self).pending().contains(conflict_id@),
            r ==> final(self).asks() == old(self).asks().insert(conflict_id@, Some(resolution)),
            r ==> final(self).answer_of(conflict_id@) == Some(resolution),
            !r ==> final(self).asks() == old(self).asks(),
            final(self).resolutions() == old(self).resolutions(),
    {
        let waiting = match self.asks.get(conflict_id) {
            Some(a) => a.is_none(),
            None => false,
        };
        if waiting {
            self.asks.insert(owned(conflict_id), Some(resolution));
            true
        } else {
            false
        }
    }

    /// The last step of asking: collects the answer given to the question,
    /// if any. The question is then closed, and a job-wide answer becomes the
    /// job's standing answer. Without an answer yet, nothing changes.
    pub fn finish_ask(&mut self, job_id: String, conflict_id: &str) -> (r: Option<ConflictResolution>)
        requires
            old(self).wf(),
        ensures
            final(self).wf(),
            r == old(self).answer_of(conflict_id@),
            r is None ==> final(self).asks() == old(self).asks() && final(self).resolutions()
                == old(self).resolutions(),
            r matches Some(a) ==> {
                &&& final(self).asks() == old(self).asks().remove(conflict_id@)
                &&& is_job_wide(a) ==> final(self).resolutions() == old(self).resolutions().insert(job_id@, a)
                &&& !is_job_wide(a) ==> final(self).resolutions() == old(self).resolutions()
            },
    {
        let answer = match self.asks.get(conflict_id) {
            Some(a) => *a,
            None => None,
        };
        match answer {
            None => None,
            Some(a) => {
                let _ = self.asks.remove(conflict_id);
                if job_wide(a) {
                    self.set_job_resolution(job_id, a);
                }
                Some(a)
            },
        }
    }
}

/// A job's standing answer reads back as set until the job is cleared, and
/// setting or clearing one job leaves the others alone.
pub proof fn law_job_resolution_reads_back(
    m: Map<Seq<char>, ConflictResolution>,
    job: Seq<char>,
    other: Seq<char>,
    r: ConflictResolution,
)
    ensures
        m.insert(job, r).contains_key(job) && m.insert(job, r)[job] == r,
        !m.remove(job).contains_key(job),
        other != job ==> m.insert(job, r).contains_key(other) == m.contains_key(other),
        other != job && m.contains_key(other) ==> m.insert(job, r)[other] == m[other],
        other != job ==> m.remove(job).contains_key(other) == m.contains_key(other),
{
}

/// An ask receives exactly the answer given to it: after `begin_ask` opens a
/// question (`m1`) and `resolve` answers it (`m2`), `finish_ask` collects
/// that answer; and the question is answered once, so resolving it again
/// reports `false` (it no longer waits).
pub proof fn law_ask_receives_the_resolution(
    m0: ConflictManager,
    m1: ConflictManager,
    m2: ConflictManager,
    conflict_id: Seq<char>,
    r: ConflictResolution,
)
    requires
        m1.asks() == m0.asks().insert(conflict_id, None),
        m2.asks() == m1.asks().insert(conflict_id, Some(r)),
    ensures
        m1.pending().contains(conflict_id),
        m2.answer_of(conflict_id) == Some(r),
        !m2.pending().contains(conflict_id),
{
}

} // verus!
