use glommactor::task::{finish, program, select_task, Task, TaskError};

#[test]
fn tasks_by_name() {
    assert_eq!(select_task(None), Ok(Task::Build));
    assert_eq!(select_task(Some("build".to_string())), Ok(Task::Build));
    assert_eq!(select_task(Some("run".to_string())), Ok(Task::Run));
    assert_eq!(
        select_task(Some("test".to_string())),
        Err(TaskError::UnknownCommand)
    );
    assert_eq!(
        select_task(Some(String::new())),
        Err(TaskError::UnknownCommand)
    );
}

#[test]
fn arguments_of_a_task() {
    assert_eq!(
        Task::Build.arguments(),
        ["build", "--release", "--example", "simple"]
    );
    assert_eq!(
        Task::Run.arguments(),
        ["run", "--release", "--example", "simple"]
    );
}

#[test]
fn program_of_a_task() {
    assert_eq!(program(None), "cargo");
    assert_eq!(program(Some("/bin/cargo".to_string())), "/bin/cargo");
}

#[test]
fn end_of_a_task() {
    assert_eq!(finish(true), Ok(()));
    assert_eq!(finish(false), Err(TaskError::StepFailed));
    assert_eq!(TaskError::StepFailed.message(), "example run step failed");
    assert_eq!(TaskError::UnknownCommand.message(), "Unknown command");
}
