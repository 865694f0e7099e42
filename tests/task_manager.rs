use rtfm_core::fs_ops::completion_event;
use rtfm_core::task_manager::{ProgressEvent, TaskKind, TaskManager, TaskStatus};

fn delete(path: &str) -> TaskKind {
    TaskKind::Delete { path: path.to_string() }
}

#[test]
fn added_task_is_pending_until_processed() {
    let mut manager = TaskManager::new();
    let id = manager.add_task(delete("/tmp/a"), "Delete a".to_string());
    let tasks = manager.get_tasks();
    assert_eq!(tasks.len(), 1);
    assert_eq!(tasks[0].id, id);
    assert_eq!(tasks[0].status, TaskStatus::Pending);
    assert_eq!(tasks[0].description, "Delete a");
    assert_eq!(tasks[0].kind, delete("/tmp/a"));
}

#[test]
fn processing_starts_each_pending_task_once() {
    let mut manager = TaskManager::default();
    let a = manager.add_task(delete("/a"), "a".to_string());
    let b = manager.add_task(
        TaskKind::Copy { src: "/b".to_string(), dest: "/c/b".to_string() },
        "b".to_string(),
    );
    let jobs = manager.process_pending_tasks();
    assert_eq!(jobs.len(), 2);
    assert_eq!(jobs[0], (a, delete("/a")));
    assert_eq!(jobs[1].0, b);
    for task in manager.get_tasks() {
        assert_eq!(task.status, TaskStatus::InProgress(0));
    }
    assert!(manager.process_pending_tasks().is_empty());
    let c = manager.add_task(delete("/d"), "d".to_string());
    let jobs = manager.process_pending_tasks();
    assert_eq!(jobs, vec![(c, delete("/d"))]);
}

#[test]
fn completion_is_reported_exactly_once() {
    let mut manager = TaskManager::new();
    let id = manager.add_task(delete("/tmp/p"), "Delete p".to_string());
    let jobs = manager.process_pending_tasks();
    let sender = manager.progress_sender();
    let event = completion_event(&jobs[0].1, Ok(()));
    sender.send((id, event)).unwrap();
    assert!(manager.update_task_statuses());
    assert_eq!(manager.get_tasks()[0].status, TaskStatus::Completed);
    assert_eq!(*manager.completed_and_needs_refresh(), vec!["/tmp/p".to_string()]);
    assert!(!manager.update_task_statuses());
    assert!(!manager.update_task_statuses());
    assert_eq!(manager.completed_and_needs_refresh().len(), 1);
}

#[test]
fn every_task_reaches_a_final_status() {
    let mut manager = TaskManager::new();
    let a = manager.add_task(delete("/a"), "a".to_string());
    let b = manager.add_task(TaskKind::CreateFile { path: "/b".to_string() }, "b".to_string());
    let c = manager.add_task(
        TaskKind::Move { src: "/c".to_string(), dest: "/d/c".to_string() },
        "c".to_string(),
    );
    manager.process_pending_tasks();
    let sender = manager.progress_sender();
    sender.send((c, ProgressEvent::Update(400))).unwrap();
    sender.send((a, ProgressEvent::Error("permission denied".to_string()))).unwrap();
    sender.send((b, ProgressEvent::Completed { affected_path: "/b".to_string() })).unwrap();
    sender.send((c, ProgressEvent::Completed { affected_path: "/d/c".to_string() })).unwrap();
    assert!(manager.update_task_statuses());
    let tasks = manager.get_tasks();
    assert_eq!(tasks[0].status, TaskStatus::Failed("permission denied".to_string()));
    assert_eq!(tasks[1].status, TaskStatus::Completed);
    assert_eq!(tasks[2].status, TaskStatus::Completed);
    assert_eq!(*manager.completed_and_needs_refresh(), vec!["/b".to_string(), "/d/c".to_string()]);
    // A final status stays whatever arrives later.
    sender.send((a, ProgressEvent::Update(10))).unwrap();
    sender.send((b, ProgressEvent::Error("late".to_string()))).unwrap();
    assert!(!manager.update_task_statuses());
    // A repeated completion is still reported and queued, and changes no status.
    sender.send((c, ProgressEvent::Completed { affected_path: "/d/c".to_string() })).unwrap();
    assert!(manager.update_task_statuses());
    let after = manager.get_tasks();
    assert_eq!(after[0].status, TaskStatus::Failed("permission denied".to_string()));
    assert_eq!(after[1].status, TaskStatus::Completed);
    assert_eq!(after[2].status, TaskStatus::Completed);
    assert_eq!(manager.completed_and_needs_refresh().len(), 3);
    assert_eq!(manager.take_completed_and_needs_refresh().len(), 3);
    assert!(manager.completed_and_needs_refresh().is_empty());
}

#[test]
fn added_tasks_get_distinct_ids() {
    let mut manager = TaskManager::new();
    let mut ids = Vec::new();
    for i in 0..50 {
        let id = manager.add_task(delete("/x"), format!("t{}", i));
        assert!(!ids.contains(&id));
        assert!(manager.has_task(id));
        ids.push(id);
    }
}

#[test]
fn progress_updates_are_capped() {
    let mut manager = TaskManager::new();
    let id = manager.add_task(delete("/a"), "a".to_string());
    manager.process_pending_tasks();
    assert!(!manager.apply_progress(id, ProgressEvent::Update(250)));
    assert_eq!(manager.get_tasks()[0].status, TaskStatus::InProgress(250));
    assert!(!manager.apply_progress(id, ProgressEvent::Update(5000)));
    assert_eq!(manager.get_tasks()[0].status, TaskStatus::InProgress(1000));
}

#[test]
fn unknown_identifier_is_ignored() {
    let mut manager = TaskManager::new();
    let id = manager.add_task(delete("/a"), "a".to_string());
    manager.process_pending_tasks();
    let other = id.wrapping_add(1);
    assert!(!manager.apply_progress(other, ProgressEvent::Completed { affected_path: "/a".to_string() }));
    assert_eq!(manager.get_tasks()[0].status, TaskStatus::InProgress(0));
    assert!(manager.completed_and_needs_refresh().is_empty());
}

#[test]
fn affected_path_of_each_kind() {
    let copy = TaskKind::Copy { src: "/s".to_string(), dest: "/d".to_string() };
    assert_eq!(copy.affected_path(), "/d");
    assert_eq!(TaskKind::CreateDirectory { path: "/n".to_string() }.affected_path(), "/n");
    assert_eq!(
        completion_event(&copy, Err("no space".to_string())),
        ProgressEvent::Error("no space".to_string())
    );
    assert_eq!(
        completion_event(&copy, Ok(())),
        ProgressEvent::Completed { affected_path: "/d".to_string() }
    );
}
