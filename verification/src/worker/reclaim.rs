//! Reclaiming what an interrupted attempt left running: which attempts
//! still own a runtime after a restart, and the order in which their
//! container and process group are torn down.
use vstd::prelude::*;

use crate::control::error::AppError;
use crate::control::ports::{AttemptState, ExecutionObservation};
use crate::domain::ids::{AttemptId, ExecutionId, WorkId};
use crate::domain::status::WorkStatus;
use crate::domain::work::Work;

verus! {

/// The runtime an attempt may own outside the store: an OCI container it
/// proved it owns, and the process group it recorded. Each method tears
/// the runtime down when the attempt's ownership proof under
/// `control_root` matches, and says whether there was one.
pub trait OwnedRuntime {
    fn reclaim_container(
        &mut self,
        control_root: &str,
        work_id: &str,
        execution_id: &str,
        attempt_id: &str,
    ) -> Result<bool, AppError>;

    fn reclaim_runtime_owner(
        &mut self,
        control_root: &str,
        work_id: &str,
        execution_id: &str,
        attempt_id: &str,
    ) -> Result<bool, AppError>;
}

/// Tears down the runtime an attempt owns: its container first, then its
/// process group; the first failure stops the teardown. The result says
/// whether either existed.
pub fn reclaim_owned_process<R: OwnedRuntime>(
    runtime: &mut R,
    control_root: &str,
    work_id: &str,
    execution_id: &str,
    attempt_id: &str,
) -> Result<bool, AppError> {
    let container = match runtime.reclaim_container(control_root, work_id, execution_id, attempt_id) {
        Ok(found) => found,
        Err(e) => return Err(e),
    };
    let process = runtime.reclaim_runtime_owner(control_root, work_id, execution_id, attempt_id);
    teardown_outcome(container, process)
}

/// What a teardown reports once its container step found `container`: the
/// process step's error unchanged, else whether either step found a
/// runtime.
pub fn teardown_outcome(container: bool, process: Result<bool, AppError>) -> (r: Result<bool, AppError>)
    ensures
        match process {
            Ok(p) => r == Ok::<bool, AppError>(container || p),
            Err(e) => r == Err::<bool, AppError>(e),
        },
{
    match process {
        Ok(found) => Ok(container || found),
        Err(e) => Err(e),
    }
}

/// The process group id recorded under a control root: the file's text
/// read as `u32::from_str` reads it once trimmed, or a worker error.
pub fn recorded_process_group(text: &str) -> (r: Result<u32, AppError>)
    ensures
        match crate::order::u64_from_text(crate::text::trim_spec(text@)) {
            Some(v) => if v <= u32::MAX {
                r == Ok::<u32, AppError>(v as u32)
            } else {
                r matches Err(AppError::Worker(m)) && m@ == "recorded process group is not a number"@
            },
            None => r matches Err(AppError::Worker(m)) && m@ == "recorded process group is not a number"@,
        },
{
    match crate::order::parse_u64(crate::text::trimmed(text)) {
        Some(v) => {
            if v <= 0xffff_ffffu64 {
                Ok(v as u32)
            } else {
                Err(AppError::worker("recorded process group is not a number"))
            }
        },
        None => Err(AppError::worker("recorded process group is not a number")),
    }
}

/// An attempt whose runtime must be reclaimed.
#[derive(Debug)]
pub struct ReclaimTarget {
    pub work_id: WorkId,
    pub execution_id: ExecutionId,
    pub attempt_id: AttemptId,
}

/// The ids of a reclaim target.
pub open spec fn target_view(t: ReclaimTarget) -> (Seq<char>, Seq<char>, Seq<char>) {
    (t.work_id@, t.execution_id@, t.attempt_id@)
}

/// An execution whose last attempt is still active.
pub open spec fn ends_active(e: ExecutionObservation) -> bool {
    e.attempts@.len() > 0 && e.attempts@.last().state == AttemptState::Active
}

/// The target of an execution that ends in an active attempt.
pub open spec fn target_of(work_id: Seq<char>, e: ExecutionObservation) -> (Seq<char>, Seq<char>, Seq<char>) {
    (work_id, e.execution_id@, e.attempts@.last().attempt_id@)
}

/// The attempts of one Work to reclaim after a restart: none unless the
/// Work is running; else, in order, the last attempt of every execution
/// whose last attempt is still active.
pub fn reclaim_targets(work: &Work, executions: &[ExecutionObservation]) -> (r: Vec<ReclaimTarget>)
    ensures
        work@.status != WorkStatus::Running ==> r@.len() == 0,
        work@.status == WorkStatus::Running ==> r@.map_values(|t: ReclaimTarget| target_view(t))
            == executions@.filter(|e: ExecutionObservation| ends_active(e)).map_values(
            |e: ExecutionObservation| target_of(work@.id, e),
        ),
{
    let mut out: Vec<ReclaimTarget> = Vec::new();
    if work.status() != WorkStatus::Running {
        return out;
    }
    let ghost pred = |e: ExecutionObservation| ends_active(e);
    let ghost f = |e: ExecutionObservation| target_of(work@.id, e);
    let mut i: usize = 0;
    while i < executions.len()
        invariant
            i <= executions@.len(),
            pred == (|e: ExecutionObservation| ends_active(e)),
            f == (|e: ExecutionObservation| target_of(work@.id, e)),
            out@.map_values(|t: ReclaimTarget| target_view(t)) == executions@.take(i as int).filter(
                pred,
            ).map_values(f),
        decreases executions.len() - i,
    {
        let ghost before = out@;
        assert(executions@.take(i + 1).drop_last() =~= executions@.take(i as int));
        assert(executions@.take(i + 1).last() == executions@[i as int]);
        reveal_with_fuel(Seq::filter, 1);
        let e = &executions[i];
        let n = e.attempts.len();
        if n > 0 && e.attempts[n - 1].state == AttemptState::Active {
            let target = ReclaimTarget {
                work_id: work.id().clone(),
                execution_id: e.execution_id.clone(),
                attempt_id: e.attempts[n - 1].attempt_id.clone(),
            };
            out.push(target);
            assert(executions@.take(i + 1).filter(pred) =~= executions@.take(i as int).filter(
                pred,
            ).push(executions@[i as int]));
            assert(out@.map_values(|t: ReclaimTarget| target_view(t)) =~= before.map_values(
                |t: ReclaimTarget| target_view(t),
            ).push(f(executions@[i as int])));
        } else {
            assert(executions@.take(i + 1).filter(pred) =~= executions@.take(i as int).filter(
                pred,
            ));
        }
        i = i + 1;
    }
    assert(executions@.take(executions.len() as int) =~= executions@);
    out
}

} // verus!
