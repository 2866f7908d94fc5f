use agent_network::chain::{Agent, ChainActionType, Goal, Task, TaskStatus};
use agent_network::task_execution::{
    build_task_context, context_sources, execute_llm, execution_loop_step, next_task_input, should_execute,
    task_action_type, ExecutionAction, ExecutionEvent, PendingTaskScan, MAX_TASK_COST,
};
use agent_network::task_validation::{
    check_task_for_validation, judge_task_output, validation_loop_step, TaskValidationError, ValidationAction,
    ValidationEvent, VALIDATION_PAYMENT,
};
use agent_network::types::{ActionType, TaskInput, TaskOutput};

fn task(slot: u64, status: TaskStatus) -> Task {
    Task {
        task_slot_id: slot,
        action_type: ChainActionType::Llm,
        status,
        compute_node: None,
        input_cid: None,
        output_cid: Some("prev".to_string()),
        next_input_cid: None,
        pending_input_cid: Some("in".to_string()),
        pending_output_cid: Some("out".to_string()),
    }
}

fn goal(slot: u64, current: u64, max: u64, confidential: bool) -> Goal {
    Goal {
        goal_slot_id: slot,
        agent: [1; 32],
        is_confidential: confidential,
        current_iteration: current,
        max_iterations: max,
        specification_cid: "spec-cid".to_string(),
    }
}

#[test]
fn context_with_all_parts() {
    let c = build_task_context("G", "A", 2, 5, Some("M"), Some("P"));
    assert_eq!(
        c,
        "Goal Specification:\nG\n\n---\n\nAgent Config:\nA\n\n---\n\nIteration Information:\n  Current Iteration: 2\n  Max Iterations: 5\n  Remaining Iterations: 3\n\n---\n\nAgent Memory:\nM\n\n---\n\nPrevious Output:\nP"
    );
}

#[test]
fn context_without_optional_parts_and_past_limit() {
    let c = build_task_context("G", "A", 7, 5, None, None);
    assert_eq!(
        c,
        "Goal Specification:\nG\n\n---\n\nAgent Config:\nA\n\n---\n\nIteration Information:\n  Current Iteration: 7\n  Max Iterations: 5\n  Remaining Iterations: 0"
    );
    assert!(c.starts_with("Goal Specification:\nG"));
}

#[test]
fn action_types_name_addresses_in_base58() {
    let k = [9u8; 32];
    let expected = solana_sdk::pubkey::Pubkey::new_from_array(k).to_string();
    assert_eq!(task_action_type(&ChainActionType::Llm), ActionType::Llm);
    assert_eq!(task_action_type(&ChainActionType::Tool(k)), ActionType::Tool { pubkey: expected.clone() });
    assert_eq!(task_action_type(&ChainActionType::Agent2Agent(k)), ActionType::Agent2Agent { pubkey: expected });
    assert_ne!(task_action_type(&ChainActionType::Tool(k)), ActionType::Tool { pubkey: String::new() });
}

#[test]
fn next_input_appends_the_output() {
    let input = TaskInput { context: "C".to_string(), action_type: ActionType::Llm };
    let next = next_task_input(input, "{\"x\":1}");
    assert_eq!(next.context, "C\n\n---\n\nPrevious Output:\n{\"x\":1}");
    assert_eq!(next.action_type, ActionType::Llm);
}

#[test]
fn placeholder_model() {
    let out = execute_llm(&TaskInput { context: String::new(), action_type: ActionType::Llm });
    assert_eq!(out.llm_response, "Placeholder LLM response");
    assert_eq!(out.reasoning, "Placeholder reasoning");
    assert_eq!(MAX_TASK_COST, 1_000);
}

#[test]
fn context_sources_follow_the_accounts() {
    let agent = Agent {
        agent_slot_id: 1,
        agent_config_cid: "cfg".to_string(),
        agent_memory_cid: None,
    };
    let s = context_sources(&task(1, TaskStatus::Pending), &goal(0, 0, 3, false), &agent);
    assert_eq!(s.goal_spec_cid, "spec-cid");
    assert_eq!(s.agent_config_cid, "cfg");
    assert_eq!(s.agent_memory_cid, None);
    assert_eq!(s.previous_output_cid, Some("prev".to_string()));
}

#[test]
fn only_pending_tasks_are_taken_up() {
    assert!(should_execute(&Some(task(1, TaskStatus::Pending))));
    assert!(!should_execute(&Some(task(1, TaskStatus::AwaitingValidation))));
    assert!(!should_execute(&None));
}

#[test]
fn scan_visits_each_slot_once() {
    let mut scan = PendingTaskScan::new(3);
    let mut seen = Vec::new();
    while let Some(s) = scan.next_lookup() {
        seen.push(s);
    }
    assert_eq!(seen, vec![0, 1, 2]);
    assert_eq!(scan.next_lookup(), None);
    assert_eq!(PendingTaskScan::new(0).next_lookup(), None);
}

#[test]
fn execution_loop_steps() {
    assert_eq!(execution_loop_step(&ExecutionEvent::TaskPending(task(4, TaskStatus::Pending))), ExecutionAction::ClaimAndExecute(4));
    assert_eq!(execution_loop_step(&ExecutionEvent::StreamEnded), ExecutionAction::Fail);
    assert_eq!(execution_loop_step(&ExecutionEvent::Shutdown), ExecutionAction::Stop);
}

#[test]
fn validation_checks_each_failure() {
    assert!(matches!(check_task_for_validation(3, None), Err(TaskValidationError::TaskNotFound(3))));
    assert!(matches!(
        check_task_for_validation(3, Some(task(3, TaskStatus::Pending))),
        Err(TaskValidationError::NotAwaitingValidation(3, TaskStatus::Pending))
    ));
    let mut t = task(3, TaskStatus::AwaitingValidation);
    t.pending_input_cid = None;
    assert!(matches!(check_task_for_validation(3, Some(t.clone())), Err(TaskValidationError::NoPendingInput)));
    t.pending_input_cid = Some("in".into());
    t.pending_output_cid = None;
    assert!(matches!(check_task_for_validation(3, Some(t)), Err(TaskValidationError::NoPendingOutput)));
    let ok = check_task_for_validation(3, Some(task(3, TaskStatus::AwaitingValidation))).unwrap();
    assert_eq!((ok.input_cid.as_str(), ok.output_cid.as_str()), ("in", "out"));
}

#[test]
fn verdicts() {
    let out = TaskOutput { llm_response: "answer".into(), reasoning: String::new() };
    let empty = TaskOutput { llm_response: String::new(), reasoning: "r".into() };
    assert!(matches!(judge_task_output(&out, 5, None), Err(TaskValidationError::GoalNotFound(5))));
    let v = judge_task_output(&out, 5, Some(goal(5, 1, 3, false))).unwrap();
    assert!(v.approved && !v.goal_completed);
    assert_eq!(v.payment_amount, VALIDATION_PAYMENT);
    assert_eq!(VALIDATION_PAYMENT, 1_000_000);
    let last = judge_task_output(&empty, 5, Some(goal(5, 2, 3, false))).unwrap();
    assert!(!last.approved && last.goal_completed);
    assert!(judge_task_output(&out, 5, Some(goal(5, 0, 0, false))).unwrap().goal_completed);
}

#[test]
fn validation_loop_skips_confidential_goals() {
    assert_eq!(validation_loop_step(&ValidationEvent::TaskAwaiting(task(8, TaskStatus::AwaitingValidation))), ValidationAction::FindGoal(8));
    assert_eq!(validation_loop_step(&ValidationEvent::GoalFound(8, goal(2, 0, 1, true))), ValidationAction::Skip);
    assert_eq!(validation_loop_step(&ValidationEvent::GoalFound(8, goal(2, 0, 1, false))), ValidationAction::ValidateTask(2, 8));
    assert_eq!(validation_loop_step(&ValidationEvent::GoalLookupFailed(8)), ValidationAction::Skip);
    assert_eq!(validation_loop_step(&ValidationEvent::StreamEnded), ValidationAction::Fail);
    assert_eq!(validation_loop_step(&ValidationEvent::Shutdown), ValidationAction::Stop);
}
