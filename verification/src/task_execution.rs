//! Execution of tasks by a public node: which tasks it takes up, the
//! context that it hands the model (goal specification, agent
//! configuration, iteration counts, memory and previous output), and the
//! input that it prepares for the next iteration. Fetching and publishing
//! documents and sending transactions is the caller's part.

use vstd::prelude::*;
use crate::chain::{Agent, ChainActionType, Goal, Task, TaskStatus, base58, pubkey_to_base58};
use crate::text::{decimal, push_decimal, push_str};
use crate::types::{ActionType, TaskInput, TaskOutput};
use vstd::string::StringExecFns;

verus! {

/// The most that a node lets a task cost when it claims one.
pub const MAX_TASK_COST: u64 = 1_000;

/// The separator between the parts of a task context.
pub open spec fn part_separator() -> Seq<char> {
    "\n\n---\n\n"@
}

/// The parts joined with the separator between each two of them.
pub open spec fn join(parts: Seq<Seq<char>>, sep: Seq<char>) -> Seq<char>
    decreases parts.len(),
{
    if parts.len() == 0 {
        seq![]
    } else if parts.len() == 1 {
        parts[0]
    } else {
        join(parts.drop_last(), sep) + sep + parts.last()
    }
}

/// `a - b`, or 0 where `b` exceeds `a`, as `u64::saturating_sub` gives it.
pub open spec fn saturating_sub(a: u64, b: u64) -> nat {
    if a >= b { (a - b) as nat } else { 0 }
}

/// The part of the context that tells the agent where the goal stands.
pub open spec fn iteration_info(current_iteration: u64, max_iterations: u64) -> Seq<char> {
    "Iteration Information:\n  Current Iteration: "@ + decimal(current_iteration as nat)
        + "\n  Max Iterations: "@ + decimal(max_iterations as nat)
        + "\n  Remaining Iterations: "@ + decimal(saturating_sub(max_iterations, current_iteration))
}

/// The parts of a task's context, in order: the goal specification, the
/// agent configuration, the iteration information, then the agent's memory
/// and the previous output where there are any.
pub open spec fn context_parts(
    goal_spec: Seq<char>,
    agent_config: Seq<char>,
    current_iteration: u64,
    max_iterations: u64,
    agent_memory: Option<Seq<char>>,
    previous_output: Option<Seq<char>>,
) -> Seq<Seq<char>> {
    seq![
        "Goal Specification:\n"@ + goal_spec,
        "Agent Config:\n"@ + agent_config,
        iteration_info(current_iteration, max_iterations),
    ] + match agent_memory {
        Some(m) => seq!["Agent Memory:\n"@ + m],
        None => Seq::<Seq<char>>::empty(),
    } + match previous_output {
        Some(p) => seq!["Previous Output:\n"@ + p],
        None => Seq::<Seq<char>>::empty(),
    }
}

/// The context of a task: its parts joined by the separator.
pub open spec fn task_context(
    goal_spec: Seq<char>,
    agent_config: Seq<char>,
    current_iteration: u64,
    max_iterations: u64,
    agent_memory: Option<Seq<char>>,
    previous_output: Option<Seq<char>>,
) -> Seq<char> {
    join(context_parts(goal_spec, agent_config, current_iteration, max_iterations, agent_memory, previous_output),
        part_separator())
}

pub open spec fn opt_view(o: Option<&str>) -> Option<Seq<char>> {
    match o {
        Some(s) => Some(s@),
        None => None,
    }
}

fn push_iteration_info(s: &mut String, current_iteration: u64, max_iterations: u64)
    ensures
        final(s)@ == old(s)@ + iteration_info(current_iteration, max_iterations),
{
    push_str(s, "Iteration Information:\n  Current Iteration: ");
    push_decimal(s, current_iteration);
    push_str(s, "\n  Max Iterations: ");
    push_decimal(s, max_iterations);
    push_str(s, "\n  Remaining Iterations: ");
    push_decimal(s, max_iterations.saturating_sub(current_iteration));
    assert(final(s)@ =~= old(s)@ + iteration_info(current_iteration, max_iterations));
}

/// The context that the model receives for a task.
pub fn build_task_context(
    goal_spec: &str,
    agent_config: &str,
    current_iteration: u64,
    max_iterations: u64,
    agent_memory: Option<&str>,
    previous_output: Option<&str>,
) -> (c: String)
    ensures
        c@ == task_context(goal_spec@, agent_config@, current_iteration, max_iterations,
            opt_view(agent_memory), opt_view(previous_output)),
{
    let ghost sep = part_separator();
    let ghost p0 = "Goal Specification:\n"@ + goal_spec@;
    let ghost p1 = "Agent Config:\n"@ + agent_config@;
    let ghost p2 = iteration_info(current_iteration, max_iterations);
    let mut c = String::new();
    push_str(&mut c, "Goal Specification:\n");
    push_str(&mut c, goal_spec);
    assert(c@ =~= p0);
    push_str(&mut c, "\n\n---\n\n");
    push_str(&mut c, "Agent Config:\n");
    push_str(&mut c, agent_config);
    assert(c@ =~= p0 + sep + p1);
    push_str(&mut c, "\n\n---\n\n");
    push_iteration_info(&mut c, current_iteration, max_iterations);
    assert(c@ =~= p0 + sep + p1 + sep + p2);
    let ghost base = seq![p0, p1, p2];
    assert(join(seq![p0], sep) == p0);
    assert(seq![p0, p1].drop_last() =~= seq![p0]);
    assert(join(seq![p0, p1], sep) == p0 + sep + p1);
    assert(base.drop_last() =~= seq![p0, p1]);
    assert(c@ == join(base, sep));
    let ghost with_memory = base + match agent_memory {
        Some(m) => seq!["Agent Memory:\n"@ + m@],
        None => Seq::<Seq<char>>::empty(),
    };
    match agent_memory {
        Some(m) => {
            push_str(&mut c, "\n\n---\n\n");
            push_str(&mut c, "Agent Memory:\n");
            push_str(&mut c, m);
            assert(with_memory.drop_last() =~= base);
            assert(c@ =~= join(base, sep) + sep + ("Agent Memory:\n"@ + m@));
        },
        None => {
            assert(with_memory =~= base);
        },
    }
    assert(c@ == join(with_memory, sep));
    let ghost all = with_memory + match previous_output {
        Some(p) => seq!["Previous Output:\n"@ + p@],
        None => Seq::<Seq<char>>::empty(),
    };
    match previous_output {
        Some(p) => {
            push_str(&mut c, "\n\n---\n\n");
            push_str(&mut c, "Previous Output:\n");
            push_str(&mut c, p);
            assert(all.drop_last() =~= with_memory);
            assert(c@ =~= join(with_memory, sep) + sep + ("Previous Output:\n"@ + p@));
        },
        None => {
            assert(all =~= with_memory);
        },
    }
    assert(all =~= context_parts(goal_spec@, agent_config@, current_iteration, max_iterations,
        opt_view(agent_memory), opt_view(previous_output)));
    c
}

/// The action of a task as its input names it: tools and agents by the
/// base58 text of their address.
pub open spec fn action_of(a: ChainActionType) -> (int, Seq<char>) {
    match a {
        ChainActionType::Llm => (0, Seq::<char>::empty()),
        ChainActionType::Tool(k) => (1, base58(k@)),
        ChainActionType::Agent2Agent(k) => (2, base58(k@)),
    }
}

/// An input action, by its kind and address text.
pub open spec fn action_view(a: ActionType) -> (int, Seq<char>) {
    match a {
        ActionType::Llm => (0, Seq::<char>::empty()),
        ActionType::Tool { pubkey } => (1, pubkey@),
        ActionType::Agent2Agent { pubkey } => (2, pubkey@),
    }
}

/// The action of a task, as the task input names it.
pub fn task_action_type(a: &ChainActionType) -> (r: ActionType)
    ensures
        action_view(r) == action_of(*a),
{
    match a {
        ChainActionType::Llm => ActionType::Llm,
        ChainActionType::Tool(k) => ActionType::Tool { pubkey: pubkey_to_base58(k) },
        ChainActionType::Agent2Agent(k) => ActionType::Agent2Agent { pubkey: pubkey_to_base58(k) },
    }
}

/// The documents that make up a task's context, by CID.
#[derive(Clone, Debug)]
pub struct ContextSources {
    pub goal_spec_cid: String,
    pub agent_config_cid: String,
    pub agent_memory_cid: Option<String>,
    pub previous_output_cid: Option<String>,
}

/// Where a task's context comes from: the goal's specification, the agent's
/// configuration and memory, and the task's previous output.
pub fn context_sources(task: &Task, goal: &Goal, agent: &Agent) -> (r: ContextSources)
    ensures
        r.goal_spec_cid == goal.specification_cid,
        r.agent_config_cid == agent.agent_config_cid,
        r.agent_memory_cid == agent.agent_memory_cid,
        r.previous_output_cid == task.output_cid,
{
    ContextSources {
        goal_spec_cid: goal.specification_cid.clone(),
        agent_config_cid: agent.agent_config_cid.clone(),
        agent_memory_cid: match &agent.agent_memory_cid {
            Some(c) => Some(c.clone()),
            None => None,
        },
        previous_output_cid: match &task.output_cid {
            Some(c) => Some(c.clone()),
            None => None,
        },
    }
}

/// The model's answer to a task input. The model is not connected yet: the
/// answer is a fixed placeholder.
pub fn execute_llm(input: &TaskInput) -> (out: TaskOutput)
    ensures
        out.llm_response@ == "Placeholder LLM response"@,
        out.reasoning@ == "Placeholder reasoning"@,
{
    TaskOutput {
        llm_response: <String as StringExecFns>::from_str("Placeholder LLM response"),
        reasoning: <String as StringExecFns>::from_str("Placeholder reasoning"),
    }
}

/// The input of the next iteration: this input's context followed by the
/// published output, same action.
pub fn next_task_input(input: TaskInput, output_json: &str) -> (next: TaskInput)
    ensures
        next.context@ == input.context@ + part_separator() + "Previous Output:\n"@ + output_json@,
        next.action_type == input.action_type,
{
    let mut context = input.context;
    push_str(&mut context, "\n\n---\n\n");
    push_str(&mut context, "Previous Output:\n");
    push_str(&mut context, output_json);
    TaskInput { context, action_type: input.action_type }
}

/// Whether a node takes up the task that a lookup found: when it is pending.
pub fn should_execute(task: &Option<Task>) -> (b: bool)
    ensures
        b == (task matches Some(t) && t.status == TaskStatus::Pending),
{
    match task {
        Some(t) => t.status == TaskStatus::Pending,
        None => false,
    }
}

/// The walk over the task slots that a node makes at start-up, to take up
/// the tasks that were already pending: slots `0` to `task_count - 1`, in order.
pub struct PendingTaskScan {
    next_slot: u64,
    task_count: u64,
}

impl PendingTaskScan {
    pub closed spec fn next(&self) -> u64 {
        self.next_slot
    }

    pub closed spec fn count(&self) -> u64 {
        self.task_count
    }

    pub closed spec fn wf(&self) -> bool {
        self.next_slot <= self.task_count
    }

    pub fn new(task_count: u64) -> (s: Self)
        ensures
            s.wf(),
            s.next() == 0,
            s.count() == task_count,
    {
        PendingTaskScan { next_slot: 0, task_count }
    }

    /// The next slot to look up, `None` once every slot was visited.
    pub fn next_lookup(&mut self) -> (r: Option<u64>)
        requires
            old(self).wf(),
        ensures
            final(self).wf(),
            final(self).count() == old(self).count(),
            old(self).next() < old(self).count() ==> r == Some(old(self).next())
                && final(self).next() == old(self).next() + 1,
            old(self).next() >= old(self).count() ==> r is None && final(self).next() == old(self).next(),
    {
        if self.next_slot < self.task_count {
            let slot = self.next_slot;
            self.next_slot = self.next_slot + 1;
            Some(slot)
        } else {
            None
        }
    }
}

/// An event of the task execution loop.
#[derive(Clone, Debug)]
pub enum ExecutionEvent {
    /// The task stream delivered a pending task.
    TaskPending(Task),
    /// The task stream ended.
    StreamEnded,
    /// Shutdown was requested.
    Shutdown,
}

/// What the task execution loop does next.
#[derive(Clone, Copy, Debug, PartialEq, Eq, Structural)]
pub enum ExecutionAction {
    /// Claim the task in this slot and execute it; a failure is reported
    /// and the loop goes on.
    ClaimAndExecute(u64),
    /// End the loop with an error: the stream ended unexpectedly.
    Fail,
    /// End the loop.
    Stop,
}

/// The task execution loop's response to an event.
pub fn execution_loop_step(e: &ExecutionEvent) -> (a: ExecutionAction)
    ensures
        match e {
            ExecutionEvent::TaskPending(t) => a == ExecutionAction::ClaimAndExecute(t.task_slot_id),
            ExecutionEvent::StreamEnded => a == ExecutionAction::Fail,
            ExecutionEvent::Shutdown => a == ExecutionAction::Stop,
        },
{
    match e {
        ExecutionEvent::TaskPending(t) => ExecutionAction::ClaimAndExecute(t.task_slot_id),
        ExecutionEvent::StreamEnded => ExecutionAction::Fail,
        ExecutionEvent::Shutdown => ExecutionAction::Stop,
    }
}


proof fn lemma_join_push(parts: Seq<Seq<char>>, sep: Seq<char>, x: Seq<char>)
    requires
        parts.len() >= 1,
    ensures
        join(parts.push(x), sep) == join(parts, sep) + sep + x,
{
    assert(parts.push(x).drop_last() =~= parts);
}

proof fn lemma_join_starts_with_first(parts: Seq<Seq<char>>, sep: Seq<char>)
    requires
        parts.len() >= 1,
    ensures
        parts[0].len() <= join(parts, sep).len(),
        join(parts, sep).subrange(0, parts[0].len() as int) == parts[0],
    decreases parts.len(),
{
    if parts.len() == 1 {
        assert(join(parts, sep).subrange(0, parts[0].len() as int) =~= parts[0]);
    } else {
        let d = parts.drop_last();
        lemma_join_starts_with_first(d, sep);
        assert(d[0] == parts[0]);
        let j = join(d, sep);
        assert(join(parts, sep) == j + sep + parts.last());
        assert((j + sep + parts.last()).subrange(0, parts[0].len() as int) =~= j.subrange(0, parts[0].len() as int));
    }
}

/// Law: a task's context opens with the goal specification part.
pub proof fn lemma_context_opens_with_goal_spec(
    goal_spec: Seq<char>,
    agent_config: Seq<char>,
    current_iteration: u64,
    max_iterations: u64,
    agent_memory: Option<Seq<char>>,
    previous_output: Option<Seq<char>>,
)
    ensures
        ({
            let c = task_context(goal_spec, agent_config, current_iteration, max_iterations, agent_memory, previous_output);
            let first = "Goal Specification:\n"@ + goal_spec;
            first.len() <= c.len() && c.subrange(0, first.len() as int) == first
        }),
{
    let parts = context_parts(goal_spec, agent_config, current_iteration, max_iterations, agent_memory, previous_output);
    assert(parts[0] == "Goal Specification:\n"@ + goal_spec);
    lemma_join_starts_with_first(parts, part_separator());
}

/// Law: the next iteration's context is this one's with the published
/// output appended as one more part, `Previous Output:`.
pub proof fn lemma_next_context_appends_output(
    goal_spec: Seq<char>,
    agent_config: Seq<char>,
    current_iteration: u64,
    max_iterations: u64,
    agent_memory: Option<Seq<char>>,
    previous_output: Option<Seq<char>>,
    output_json: Seq<char>,
)
    ensures
        task_context(goal_spec, agent_config, current_iteration, max_iterations, agent_memory, previous_output)
            + part_separator() + "Previous Output:\n"@ + output_json
        == join(
            context_parts(goal_spec, agent_config, current_iteration, max_iterations, agent_memory, previous_output)
                .push("Previous Output:\n"@ + output_json),
            part_separator(),
        ),
{
    let parts = context_parts(goal_spec, agent_config, current_iteration, max_iterations, agent_memory, previous_output);
    lemma_join_push(parts, part_separator(), "Previous Output:\n"@ + output_json);
    assert(task_context(goal_spec, agent_config, current_iteration, max_iterations, agent_memory, previous_output)
        + part_separator() + "Previous Output:\n"@ + output_json
        =~= join(parts, part_separator()) + part_separator() + ("Previous Output:\n"@ + output_json));
}

/// Law: how the optional parts enter a task's context. Without memory and
/// previous output the context is the goal specification, agent
/// configuration and iteration parts, separated. The agent's memory, where
/// there is some, adds one part after the iteration information; the
/// previous output, where there is some, adds one last part, whether or not
/// there is memory.
pub proof fn lemma_context_optional_parts(
    goal_spec: Seq<char>,
    agent_config: Seq<char>,
    current_iteration: u64,
    max_iterations: u64,
    memory: Seq<char>,
    agent_memory: Option<Seq<char>>,
    output: Seq<char>,
)
    ensures
        task_context(goal_spec, agent_config, current_iteration, max_iterations, None, None)
            == ("Goal Specification:\n"@ + goal_spec) + part_separator() + ("Agent Config:\n"@ + agent_config)
                + part_separator() + iteration_info(current_iteration, max_iterations),
        task_context(goal_spec, agent_config, current_iteration, max_iterations, Some(memory), None)
            == task_context(goal_spec, agent_config, current_iteration, max_iterations, None, None)
                + part_separator() + ("Agent Memory:\n"@ + memory),
        task_context(goal_spec, agent_config, current_iteration, max_iterations, agent_memory, Some(output))
            == task_context(goal_spec, agent_config, current_iteration, max_iterations, agent_memory, None)
                + part_separator() + ("Previous Output:\n"@ + output),
{
    let sep = part_separator();
    let p0 = "Goal Specification:\n"@ + goal_spec;
    let p1 = "Agent Config:\n"@ + agent_config;
    let p2 = iteration_info(current_iteration, max_iterations);
    let base = context_parts(goal_spec, agent_config, current_iteration, max_iterations, None, None);
    assert(base =~= seq![p0, p1, p2]);
    assert(seq![p0, p1, p2].drop_last() =~= seq![p0, p1]);
    assert(seq![p0, p1].drop_last() =~= seq![p0]);
    assert(join(seq![p0, p1, p2], sep) == join(seq![p0, p1], sep) + sep + p2);
    assert(join(seq![p0, p1], sep) == join(seq![p0], sep) + sep + p1);
    let with_mem = context_parts(goal_spec, agent_config, current_iteration, max_iterations, Some(memory), None);
    assert(with_mem =~= base.push("Agent Memory:\n"@ + memory));
    lemma_join_push(base, sep, "Agent Memory:\n"@ + memory);
    let without = context_parts(goal_spec, agent_config, current_iteration, max_iterations, agent_memory, None);
    let with_out = context_parts(goal_spec, agent_config, current_iteration, max_iterations, agent_memory, Some(output));
    assert(with_out =~= without.push("Previous Output:\n"@ + output));
    assert(without.len() >= 3);
    lemma_join_push(without, sep, "Previous Output:\n"@ + output);
}

/// Law: the remaining iterations that the context reports and the current
/// iteration add up to the limit, as long as the limit is not passed.
pub proof fn lemma_remaining_iterations(current_iteration: u64, max_iterations: u64)
    ensures
        current_iteration <= max_iterations ==> current_iteration + saturating_sub(max_iterations, current_iteration) == max_iterations,
        current_iteration > max_iterations ==> saturating_sub(max_iterations, current_iteration) == 0,
{
}

} // verus!
