//! Validation of task results by a public node: which tasks it validates,
//! the checks that a task must pass before it is judged, and the verdict on
//! its output. Fetching documents and sending the validation transaction is
//! the caller's part.

use vstd::prelude::*;
use crate::chain::{Goal, Task, TaskStatus};
use crate::types::TaskOutput;

verus! {

/// What a validator pays a compute node for an approved task, in lamports.
pub const VALIDATION_PAYMENT: u64 = 1_000_000;

/// Why a task cannot be validated.
#[derive(Clone, Debug)]
pub enum TaskValidationError {
    /// No task account in the slot.
    TaskNotFound(u64),
    /// The task is no longer awaiting validation; its status now.
    NotAwaitingValidation(u64, TaskStatus),
    /// The task has no pending input CID (it may have been validated already).
    NoPendingInput,
    /// The task has no pending output CID (it may have been validated already).
    NoPendingOutput,
    /// No goal account in the slot.
    GoalNotFound(u64),
}

/// The documents that a validation reads, by CID.
#[derive(Clone, Debug)]
pub struct PendingResult {
    pub input_cid: String,
    pub output_cid: String,
}

/// The checks on a task before its result is fetched: it exists, it awaits
/// validation, and it holds the CIDs of a pending input and output.
pub fn check_task_for_validation(task_slot_id: u64, task: Option<Task>) -> (r: Result<PendingResult, TaskValidationError>)
    ensures
        match task {
            None => r matches Err(TaskValidationError::TaskNotFound(s)) && s == task_slot_id,
            Some(t) => if t.status != TaskStatus::AwaitingValidation {
                r matches Err(TaskValidationError::NotAwaitingValidation(s, st)) && s == task_slot_id && st == t.status
            } else {
                match (t.pending_input_cid, t.pending_output_cid) {
                    (None, _) => r matches Err(TaskValidationError::NoPendingInput),
                    (Some(_), None) => r matches Err(TaskValidationError::NoPendingOutput),
                    (Some(i), Some(o)) => r matches Ok(p) && p.input_cid == i && p.output_cid == o,
                }
            },
        },
{
    let t = match task {
        Some(t) => t,
        None => return Err(TaskValidationError::TaskNotFound(task_slot_id)),
    };
    if t.status != TaskStatus::AwaitingValidation {
        return Err(TaskValidationError::NotAwaitingValidation(task_slot_id, t.status));
    }
    let input_cid = match t.pending_input_cid {
        Some(c) => c,
        None => return Err(TaskValidationError::NoPendingInput),
    };
    let output_cid = match t.pending_output_cid {
        Some(c) => c,
        None => return Err(TaskValidationError::NoPendingOutput),
    };
    Ok(PendingResult { input_cid, output_cid })
}

/// The judgement on a task's result.
#[derive(Clone, Copy, Debug, PartialEq, Eq, Structural)]
pub struct Verdict {
    pub payment_amount: u64,
    pub approved: bool,
    pub goal_completed: bool,
}

/// Whether the goal is completed by the iteration being validated: when it
/// is the last one that the goal allows.
pub open spec fn completes_goal(current_iteration: u64, max_iterations: u64) -> bool {
    current_iteration >= if max_iterations >= 1 { max_iterations - 1 } else { 0 }
}

/// The verdict on a task's output: approved when the model answered
/// something; the goal is completed when this is its last iteration; the
/// payment is fixed.
pub fn judge_task_output(output: &TaskOutput, goal_slot_id: u64, goal: Option<Goal>) -> (r: Result<Verdict, TaskValidationError>)
    ensures
        match goal {
            None => r matches Err(TaskValidationError::GoalNotFound(s)) && s == goal_slot_id,
            Some(g) => r == Ok::<Verdict, TaskValidationError>(Verdict {
                payment_amount: VALIDATION_PAYMENT,
                approved: output.llm_response@.len() > 0,
                goal_completed: completes_goal(g.current_iteration, g.max_iterations),
            }),
        },
{
    let approved = !output.llm_response.as_str().is_empty();
    let g = match goal {
        Some(g) => g,
        None => return Err(TaskValidationError::GoalNotFound(goal_slot_id)),
    };
    let goal_completed = g.current_iteration >= g.max_iterations.saturating_sub(1);
    Ok(Verdict { payment_amount: VALIDATION_PAYMENT, approved, goal_completed })
}

/// An event of the task validation loop.
#[derive(Clone, Debug)]
pub enum ValidationEvent {
    /// The task stream delivered a task awaiting validation.
    TaskAwaiting(Task),
    /// The goal that refers to the task in this slot was found.
    GoalFound(u64, Goal),
    /// No goal was found for the task in this slot.
    GoalLookupFailed(u64),
    /// The task stream ended.
    StreamEnded,
    /// Shutdown was requested.
    Shutdown,
}

/// What the task validation loop does next.
#[derive(Clone, Copy, Debug, PartialEq, Eq, Structural)]
pub enum ValidationAction {
    /// Look up the goal that refers to the task in this slot.
    FindGoal(u64),
    /// Validate the task in a slot of the goal in a slot: goal, then task.
    ValidateTask(u64, u64),
    /// Go on with the next event.
    Skip,
    /// End the loop with an error: the stream ended unexpectedly.
    Fail,
    /// End the loop.
    Stop,
}

/// The task validation loop's response to an event. A public node leaves
/// the tasks of confidential goals to confidential nodes.
pub open spec fn validation_response(e: ValidationEvent) -> ValidationAction {
    match e {
        ValidationEvent::TaskAwaiting(t) => ValidationAction::FindGoal(t.task_slot_id),
        ValidationEvent::GoalFound(slot, g) => if g.is_confidential {
            ValidationAction::Skip
        } else {
            ValidationAction::ValidateTask(g.goal_slot_id, slot)
        },
        ValidationEvent::GoalLookupFailed(_) => ValidationAction::Skip,
        ValidationEvent::StreamEnded => ValidationAction::Fail,
        ValidationEvent::Shutdown => ValidationAction::Stop,
    }
}

/// The task validation loop's response to an event.
pub fn validation_loop_step(e: &ValidationEvent) -> (a: ValidationAction)
    ensures
        a == validation_response(*e),
{
    match e {
        ValidationEvent::TaskAwaiting(t) => ValidationAction::FindGoal(t.task_slot_id),
        ValidationEvent::GoalFound(slot, g) => if g.is_confidential {
            ValidationAction::Skip
        } else {
            ValidationAction::ValidateTask(g.goal_slot_id, *slot)
        },
        ValidationEvent::GoalLookupFailed(_) => ValidationAction::Skip,
        ValidationEvent::StreamEnded => ValidationAction::Fail,
        ValidationEvent::Shutdown => ValidationAction::Stop,
    }
}

/// Law: a public node validates a task only once it has found the task's
/// goal, and never when that goal is confidential; it validates under the
/// goal's slot.
pub proof fn lemma_validates_only_public_goals(e: ValidationEvent, goal_slot: u64, task_slot: u64)
    requires
        validation_response(e) == ValidationAction::ValidateTask(goal_slot, task_slot),
    ensures
        e matches ValidationEvent::GoalFound(s, g) && s == task_slot && !g.is_confidential
            && g.goal_slot_id == goal_slot,
{
}

/// Law: the goal is completed exactly on the iterations from its last one
/// on; with a limit of `m >= 1` iterations, iteration `m - 1` completes it
/// and iteration `m - 2` does not.
pub proof fn lemma_goal_completion_boundary(m: u64)
    requires
        m >= 2,
    ensures
        completes_goal((m - 1) as u64, m),
        !completes_goal((m - 2) as u64, m),
        completes_goal(0, 0),
        completes_goal(0, 1),
{
}

} // verus!
