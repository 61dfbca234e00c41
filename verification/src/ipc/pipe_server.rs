//! The single-instance hand-over: a second launch sends its job to the
//! running one through a named pipe.
use vstd::prelude::*;

verus! {

/// A job handed over through the named pipe by a second launch.
#[derive(Clone, Debug)]
pub struct PipeJobSpec {
    pub src_paths: Vec<String>,
    pub dest_dir: String,
    pub is_move: bool,
}

/// What a handed-over job turns into.
pub enum PipeAction {
    /// No destination: the window is asked to configure a job for these sources.
    Configure { src_paths: Vec<String>, is_move: bool },
    /// A destination: the job is queued.
    AddJob { src_paths: Vec<String>, dest_dir: String, is_move: bool },
}

/// Routes a handed-over job: without a destination the window configures it,
/// with one it is queued.
pub fn route_pipe_job(spec: PipeJobSpec) -> (a: PipeAction)
    ensures
        spec.dest_dir@.len() == 0 ==> (a matches PipeAction::Configure { src_paths, is_move }
            && src_paths == spec.src_paths && is_move == spec.is_move),
        spec.dest_dir@.len() != 0 ==> (a matches PipeAction::AddJob { src_paths, dest_dir, is_move }
            && src_paths == spec.src_paths && dest_dir == spec.dest_dir && is_move == spec.is_move),
{
    if spec.dest_dir.as_str().is_empty() {
        PipeAction::Configure { src_paths: spec.src_paths, is_move: spec.is_move }
    } else {
        PipeAction::AddJob { src_paths: spec.src_paths, dest_dir: spec.dest_dir, is_move: spec.is_move }
    }
}

} // verus!
