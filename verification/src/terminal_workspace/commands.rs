//! What the change of a tab asks for, and the work that it stands for.

use vstd::prelude::*;

use crate::terminal_workspace::types::{
    append_tasks, push_task, task_models, BlockCommand, BlockCommandModel,
    TerminalWorkspaceEffect, WorkspaceEffectModel, WorkspaceTask, WorkspaceTaskModel,
};

verus! {

/// What the change of a tab asks of the reducer.
#[derive(Debug)]
pub enum StateCommand {
    /// Nothing to do.
    Idle,
    /// Focus a terminal widget.
    FocusTerminal(u64),
    /// Select the hovered block in a terminal widget.
    SelectHovered(u64),
    /// Clear the selected block of a terminal widget.
    ClearSelection(u64),
    /// Focus another element.
    FocusElement(u64),
    /// Hand the event to the terminal.
    Forward(u64),
    /// Let a terminal take the look of its tab.
    Restyle(u64),
    /// Close the tab, as its last pane is gone.
    CloseTab { tab_id: u64 },
    /// Do several things.
    Batch(Vec<StateCommand>),
}

/// The lists one after the other.
pub open spec fn concat<T>(lists: Seq<Seq<T>>) -> Seq<T>
    decreases lists.len(),
{
    if lists.len() == 0 {
        Seq::empty()
    } else {
        concat(lists.drop_last()) + lists.last()
    }
}

/// The work that a command stands for.
pub open spec fn command_tasks(command: StateCommand) -> Seq<WorkspaceTaskModel>
    decreases command,
{
    match command {
        StateCommand::Idle => Seq::empty(),
        StateCommand::FocusTerminal(id) => seq![WorkspaceTaskModel::FocusTerminal(id)],
        StateCommand::SelectHovered(id) => seq![
            WorkspaceTaskModel::Block(id, BlockCommandModel::SelectHovered),
        ],
        StateCommand::ClearSelection(id) => seq![clear_task(id)],
        StateCommand::FocusElement(id) => seq![WorkspaceTaskModel::FocusElement(id)],
        StateCommand::Forward(id) => seq![WorkspaceTaskModel::Forward(id)],
        StateCommand::Restyle(id) => seq![WorkspaceTaskModel::Restyle(id)],
        StateCommand::CloseTab { tab_id } => seq![
            WorkspaceTaskModel::Effect(WorkspaceEffectModel::TabClosed(tab_id)),
        ],
        StateCommand::Batch(commands) => concat(nested_tasks(commands)),
    }
}

/// The work that each of the commands stands for.
pub open spec fn nested_tasks(commands: Vec<StateCommand>) -> Seq<Seq<WorkspaceTaskModel>>
    decreases commands,
{
    Seq::new(
        commands@.len(),
        |i: int|
            if 0 <= i < commands@.len() {
                command_tasks(commands[i])
            } else {
                Seq::empty()
            },
    )
}

/// The order to a terminal widget to clear its selected block.
pub open spec fn clear_task(widget_id: u64) -> WorkspaceTaskModel {
    WorkspaceTaskModel::Block(widget_id, BlockCommandModel::ClearSelection)
}

/// The work that a list of commands stands for.
pub open spec fn batch_tasks(commands: Seq<StateCommand>) -> Seq<WorkspaceTaskModel> {
    concat(commands.map_values(|c: StateCommand| command_tasks(c)))
}

/// A batch stands for the work of its commands.
pub proof fn batch_is_concat(commands: Vec<StateCommand>)
    ensures
        command_tasks(StateCommand::Batch(commands)) == batch_tasks(commands@),
{
    assert(nested_tasks(commands) =~= commands@.map_values(|c: StateCommand| command_tasks(c)));
}

/// One more command adds its work at the end.
pub proof fn batch_push(commands: Seq<StateCommand>, command: StateCommand)
    ensures
        batch_tasks(commands.push(command)) == batch_tasks(commands) + command_tasks(command),
{
    let all = commands.push(command).map_values(|c: StateCommand| command_tasks(c));
    assert(all.drop_last() =~= commands.map_values(|c: StateCommand| command_tasks(c)));
}

/// Turn a command into the work that it stands for.
pub fn execute_command(command: StateCommand) -> (tasks: Vec<WorkspaceTask>)
    ensures
        task_models(tasks@) == command_tasks(command),
    decreases command,
{
    let mut tasks: Vec<WorkspaceTask> = Vec::new();
    assert(task_models(tasks@) =~= Seq::empty());
    match command {
        StateCommand::Idle => {},
        StateCommand::FocusTerminal(widget_id) => push_task(
            &mut tasks,
            WorkspaceTask::FocusTerminal { widget_id },
        ),
        StateCommand::SelectHovered(widget_id) => push_task(
            &mut tasks,
            WorkspaceTask::Block { widget_id, command: BlockCommand::SelectHovered },
        ),
        StateCommand::ClearSelection(widget_id) => push_task(
            &mut tasks,
            WorkspaceTask::Block { widget_id, command: BlockCommand::ClearSelection },
        ),
        StateCommand::FocusElement(id) => push_task(
            &mut tasks,
            WorkspaceTask::FocusElement { id },
        ),
        StateCommand::Forward(terminal_id) => push_task(
            &mut tasks,
            WorkspaceTask::Forward { terminal_id },
        ),
        StateCommand::Restyle(terminal_id) => push_task(
            &mut tasks,
            WorkspaceTask::Restyle { terminal_id },
        ),
        StateCommand::CloseTab { tab_id } => push_task(
            &mut tasks,
            WorkspaceTask::Effect(TerminalWorkspaceEffect::TabClosed { tab_id }),
        ),
        StateCommand::Batch(commands) => {
            return execute_batch(commands);
        },
    }
    assert(task_models(tasks@) =~= command_tasks(command));
    tasks
}

fn execute_batch(commands: Vec<StateCommand>) -> (tasks: Vec<WorkspaceTask>)
    ensures
        task_models(tasks@) == command_tasks(StateCommand::Batch(commands)),
    decreases commands,
{
    let mut tasks: Vec<WorkspaceTask> = Vec::new();
    let ghost all = commands@;
    let mut rest = commands;
    assert(task_models(tasks@) =~= Seq::empty());
    assert(batch_tasks(all.skip(all.len() as int)) =~= Seq::empty());
    proof {
        batch_is_concat(commands);
    }
    while rest.len() > 0
        invariant
            all == commands@,
            rest@ == all.take(rest@.len() as int),
            rest@.len() <= all.len(),
            task_models(tasks@) == batch_tasks(all.skip(rest@.len() as int)),
        decreases rest@.len(),
    {
        let ghost n = rest@.len() - 1;
        let command = rest.pop().unwrap();
        assert(command == all[n]);
        assert(decreases_to!(commands => commands[n]));
        let mut first = execute_command(command);
        append_tasks(&mut first, tasks);
        tasks = first;
        proof {
            lemma_batch_front(all, n);
        }
    }
    assert(all.skip(0) =~= all);
    tasks
}

proof fn lemma_batch_front(commands: Seq<StateCommand>, n: int)
    requires
        0 <= n < commands.len(),
    ensures
        batch_tasks(commands.skip(n)) == command_tasks(commands[n]) + batch_tasks(
            commands.skip(n + 1),
        ),
    decreases commands.len(),
{
    if n == commands.len() - 1 {
        assert(commands.skip(n) =~= Seq::<StateCommand>::empty().push(commands[n]));
        batch_push(Seq::empty(), commands[n]);
        assert(batch_tasks(Seq::<StateCommand>::empty()) =~= Seq::empty());
        assert(commands.skip(n + 1) =~= Seq::empty());
        assert(command_tasks(commands[n]) + Seq::<WorkspaceTaskModel>::empty() =~= Seq::<
            WorkspaceTaskModel,
        >::empty() + command_tasks(commands[n]));
    } else {
        let less = commands.drop_last();
        lemma_batch_front(less, n);
        assert(commands.skip(n) =~= less.skip(n).push(commands.last()));
        assert(commands.skip(n + 1) =~= less.skip(n + 1).push(commands.last()));
        batch_push(less.skip(n), commands.last());
        batch_push(less.skip(n + 1), commands.last());
        assert(batch_tasks(commands.skip(n)) =~= command_tasks(commands[n]) + batch_tasks(
            commands.skip(n + 1),
        ));
    }
}

} // verus!
