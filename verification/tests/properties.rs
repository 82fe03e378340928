use kanban::InMemoryTaskRepository;
use kanban::Status;
use kanban::Task;
use kanban::TaskError;
use kanban::TaskRepository;
use kanban::TaskService;

#[test]
fn construct_starts_in_todo_without_id() {
    let task = Task::new("a name".to_string(), "a description".to_string());
    assert_eq!(task.status, Status::Todo);
    assert_eq!(task.id, None);
    assert_eq!(task.name, "a name".to_string());
    assert_eq!(task.description, "a description".to_string());
    assert_eq!(task.updated_at, None);
}

#[test]
fn add_rejects_name_differing_only_by_case() {
    let mut repo = InMemoryTaskRepository::new();
    repo.add_task(Task::new("Task".to_string(), "first".to_string())).unwrap();

    let res = repo.add_task(Task::new("tASK".to_string(), "second".to_string()));
    let err = res.expect_err("should return an error");
    // the error carries the stored task's own spelling
    assert_eq!(err, TaskError::DuplicateName("Task".to_string()));

    let all_tasks = repo.list_by_status(Status::Any);
    assert_eq!(all_tasks.len(), 1);
}

#[test]
fn add_assigns_increasing_ids_from_one() {
    let mut svc = TaskService::new(InMemoryTaskRepository::new());
    let first = svc.add_task("first", "d1").unwrap();
    let second = svc.add_task("second", "d2").unwrap();
    let third = svc.add_task("third", "d3").unwrap();

    assert_eq!(first.id, Some(1));
    assert_eq!(second.id, Some(2));
    assert_eq!(third.id, Some(3));

    let all_tasks = svc.list_by_status(Status::Any);
    assert_eq!(all_tasks.len(), 3);
    assert_eq!(all_tasks[0].id, Some(1));
    assert_eq!(all_tasks[1].id, Some(2));
    assert_eq!(all_tasks[2].id, Some(3));
}

#[test]
fn fresh_task_cannot_move_straight_to_done() {
    let mut svc = TaskService::new(InMemoryTaskRepository::new());
    svc.add_task("fresh", "straight to done").unwrap();

    let res = svc.move_to_done(1);
    assert_eq!(res.expect_err("should return an error"), TaskError::WrongState);

    // still untouched
    assert_eq!(svc.find_by_id(1).unwrap().status, Status::Todo);
}

#[test]
fn repository_rejects_skipped_transition() {
    let mut repo = InMemoryTaskRepository::new();
    repo.add_task(Task::new("fresh".to_string(), "".to_string())).unwrap();

    let res = repo.move_to_done(1);
    assert_eq!(res.expect_err("should return an error"), TaskError::InvalidTransition);
    assert_eq!(repo.find_by_id(1).unwrap().status, Status::Todo);
}

#[test]
fn lifecycle_succeeds_exactly_once_each() {
    let mut svc = TaskService::new(InMemoryTaskRepository::new());
    svc.add_task("once", "runs the lifecycle").unwrap();

    assert!(svc.move_to_doing(1).is_ok());
    assert!(svc.move_to_done(1).is_ok());

    assert_eq!(svc.move_to_doing(1).expect_err("should fail"), TaskError::WrongState);
    assert_eq!(svc.move_to_done(1).expect_err("should fail"), TaskError::WrongState);
}

#[test]
fn missing_id_reports_not_found() {
    let mut svc = TaskService::new(InMemoryTaskRepository::new());
    svc.add_task("only", "one task").unwrap();

    assert_eq!(svc.move_to_doing(99).expect_err("should fail"), TaskError::NotFound);
    assert_eq!(svc.move_to_done(0).expect_err("should fail"), TaskError::NotFound);
    assert!(svc.find_by_id(2).is_none());
}

#[test]
fn update_replaces_stored_task_or_reports_not_found() {
    let mut repo = InMemoryTaskRepository::new();
    repo.add_task(Task::new("keep".to_string(), "old words".to_string())).unwrap();

    let mut replacement = repo.find_by_id(1).unwrap();
    replacement.description = "new words".to_string();
    repo.update(replacement).unwrap();
    assert_eq!(repo.find_by_id(1).unwrap().description, "new words".to_string());

    let mut stray = repo.find_by_id(1).unwrap();
    stray.id = Some(7);
    assert_eq!(repo.update(stray).expect_err("should fail"), TaskError::NotFound);
}

#[test]
fn transition_stamps_update_after_creation() {
    let mut repo = InMemoryTaskRepository::new();
    repo.add_task(Task::new("stamped".to_string(), "".to_string())).unwrap();
    assert_eq!(repo.find_by_id(1).unwrap().updated_at, None);

    repo.move_to_doing(1).unwrap();
    let task = repo.find_by_id(1).unwrap();
    let stamp = task.updated_at.expect("transition sets the stamp");
    assert!(task.created_at <= stamp);
}

#[test]
fn validation_checks_are_pure_and_exact() {
    let nameless = Task::new("".to_string(), "described".to_string());
    assert_eq!(nameless.before_add().expect_err("empty name"), TaskError::EmptyName);

    let mut seasoned = Task::new("seasoned".to_string(), "".to_string());
    seasoned.status = Status::Done;
    assert_eq!(
        seasoned.before_add().expect_err("not a new task"),
        TaskError::InvalidInitialStatus
    );
    assert_eq!(
        seasoned.before_move_to_doing().expect_err("not Todo"),
        TaskError::WrongState
    );
    assert_eq!(seasoned.status, Status::Done);

    let fresh = Task::new("fresh".to_string(), "".to_string());
    assert!(fresh.before_add().is_ok());
    assert!(fresh.before_move_to_doing().is_ok());
    assert_eq!(
        fresh.before_move_to_done().expect_err("not Doing"),
        TaskError::WrongState
    );
    assert_eq!(fresh.status, Status::Todo);
}

#[test]
fn add_then_find_by_any_spelling_round_trips() {
    let mut repo = InMemoryTaskRepository::new();
    repo.add_task(Task::new("Alpha One".to_string(), "the first".to_string())).unwrap();

    let found = repo.find_by_name("ALPHA oNE").expect("case-insensitive lookup");
    assert_eq!(found.name, "Alpha One".to_string());
    assert_eq!(found.description, "the first".to_string());
    assert_eq!(found.status, Status::Todo);
}

#[test]
fn board_scenario_lists_each_column() {
    let mut svc = TaskService::new(InMemoryTaskRepository::new());

    let t1 = svc.add_task("task1", "description1").unwrap();
    let t2 = svc.add_task("task 2", "description task 2").unwrap();
    let t3 = svc.add_task("task 3", "description task 3").unwrap();
    assert_eq!(t1.id, Some(1));
    assert_eq!(t2.id, Some(2));
    assert_eq!(t3.id, Some(3));

    svc.move_to_doing(2).unwrap();
    svc.move_to_done(2).unwrap();
    svc.move_to_doing(3).unwrap();

    let todo = svc.list_by_status(Status::Todo);
    assert_eq!(todo.len(), 1);
    assert_eq!(todo[0].name, "task1".to_string());

    let doing = svc.list_by_status(Status::Doing);
    assert_eq!(doing.len(), 1);
    assert_eq!(doing[0].name, "task 3".to_string());

    let done = svc.list_by_status(Status::Done);
    assert_eq!(done.len(), 1);
    assert_eq!(done[0].name, "task 2".to_string());

    let all_tasks = svc.list_by_status(Status::Any);
    assert_eq!(all_tasks.len(), 3);
    assert_eq!(all_tasks[0].name, "task1".to_string());
    assert_eq!(all_tasks[1].name, "task 2".to_string());
    assert_eq!(all_tasks[2].name, "task 3".to_string());

    let mut repo = InMemoryTaskRepository::new();
    repo.add_task(Task::new("task1".to_string(), "description1".to_string())).unwrap();
    let by_name = repo.find_by_name("TASK1").expect("case-insensitive lookup");
    assert_eq!(by_name.name, "task1".to_string());

    assert_eq!(svc.move_to_done(1).expect_err("task1 is still Todo"), TaskError::WrongState);
}
