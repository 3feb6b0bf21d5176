//! The developer tasks: which build command a task stands for and how its end is judged.
use vstd::prelude::*;

verus! {

/// A task that can be asked for by name.
#[derive(Clone, Copy, Debug, PartialEq, Eq, Structural)]
pub enum Task {
    Build,
    Run,
}

/// Why a task did not succeed.
#[derive(Clone, Copy, Debug, PartialEq, Eq, Structural)]
pub enum TaskError {
    /// No task has the name that was asked for.
    UnknownCommand,
    /// The build command ended without success.
    StepFailed,
}

/// The task that `name` stands for. Without a name the task is to build.
pub open spec fn named_task(name: Option<Seq<char>>) -> Result<Task, TaskError> {
    match name {
        None => Ok(Task::Build),
        Some(name) => if name == "build"@ {
            Ok(Task::Build)
        } else if name == "run"@ {
            Ok(Task::Run)
        } else {
            Err(TaskError::UnknownCommand)
        },
    }
}

/// Selects a task by the first argument of the command line, if there is one.
pub fn select_task(name: Option<String>) -> (task: Result<Task, TaskError>)
    ensures
        task == named_task(
            match name {
                Some(name) => Some(name@),
                None => None,
            },
        ),
{
    proof {
        reveal_strlit("build");
        reveal_strlit("run");
    }
    let task = match name {
        Some(name) => name,
        None => "build".to_owned(),
    };
    if task.eq(&"build".to_owned()) {
        Ok(Task::Build)
    } else if task.eq(&"run".to_owned()) {
        Ok(Task::Run)
    } else {
        Err(TaskError::UnknownCommand)
    }
}

impl Task {
    /// The subcommand that carries the task out.
    pub open spec fn subcommand(self) -> Seq<char> {
        match self {
            Task::Build => "build"@,
            Task::Run => "run"@,
        }
    }

    /// The arguments of the command that carries the task out on the example in release mode.
    pub fn arguments(&self) -> (arguments: [&'static str; 4])
        ensures
            arguments[0]@ == self.subcommand(),
            arguments[1]@ == "--release"@,
            arguments[2]@ == "--example"@,
            arguments[3]@ == "simple"@,
    {
        let input = match self {
            Task::Build => "build",
            Task::Run => "run",
        };
        [input, "--release", "--example", "simple"]
    }
}

/// The program to run: the one that the environment names, or the usual one.
pub fn program(configured: Option<String>) -> (program: String)
    ensures
        program@ == match configured {
            Some(name) => name@,
            None => "cargo"@,
        },
{
    match configured {
        Some(name) => name,
        None => "cargo".to_owned(),
    }
}

/// Judges the end of the command.
pub fn finish(success: bool) -> (result: Result<(), TaskError>)
    ensures
        result == if success {
            Ok::<(), TaskError>(())
        } else {
            Err(TaskError::StepFailed)
        },
{
    if !success {
        return Err(TaskError::StepFailed);
    }
    Ok(())
}

impl TaskError {
    /// The text of the error.
    pub fn message(&self) -> (text: &'static str)
        ensures
            text@ == match self {
                TaskError::UnknownCommand => "Unknown command"@,
                TaskError::StepFailed => "example run step failed"@,
            },
    {
        match self {
            TaskError::UnknownCommand => "Unknown command",
            TaskError::StepFailed => "example run step failed",
        }
    }
}

/// The task is to build without a name and by the name `build`, and to run by the name `run`. No
/// other name stands for a task.
pub proof fn law_selected_task(name: Option<String>, task: Result<Task, TaskError>)
    requires
        call_ensures(select_task, (name,), task),
    ensures
        task == Ok::<Task, TaskError>(Task::Build) <==> (name is None || name->0@ == "build"@),
        task == Ok::<Task, TaskError>(Task::Run) <==> (name is Some && name->0@ == "run"@),
        task is Err <==> (name is Some && name->0@ != "build"@ && name->0@ != "run"@),
        task is Err ==> task == Err::<Task, TaskError>(TaskError::UnknownCommand),
{
    reveal_strlit("build");
    reveal_strlit("run");
    assert("build"@.len() != "run"@.len());
}

/// A task is carried out by the subcommand of its own name, in release mode, on the example.
pub proof fn law_task_arguments(task: &Task, arguments: [&'static str; 4])
    requires
        call_ensures(Task::arguments, (task,), arguments),
    ensures
        *task is Build ==> arguments[0]@ == "build"@,
        *task is Run ==> arguments[0]@ == "run"@,
        arguments[1]@ == "--release"@,
        arguments[2]@ == "--example"@,
        arguments[3]@ == "simple"@,
{
}

/// The program is the one that is configured, and `cargo` without one.
pub proof fn law_program(configured: Option<String>, name: String)
    requires
        call_ensures(program, (configured,), name),
    ensures
        configured matches Some(given) ==> name@ == given@,
        configured is None ==> name@ == "cargo"@,
{
}

/// A task succeeds exactly if its command did, and an error says what went wrong.
pub proof fn law_task_end(
    success: bool,
    result: Result<(), TaskError>,
    error: &TaskError,
    text: &'static str,
)
    requires
        call_ensures(finish, (success,), result),
        call_ensures(TaskError::message, (error,), text),
    ensures
        success ==> result is Ok,
        !success ==> result == Err::<(), TaskError>(TaskError::StepFailed),
        *error is UnknownCommand ==> text@ == "Unknown command"@,
        *error is StepFailed ==> text@ == "example run step failed"@,
{
}

} // verus!
