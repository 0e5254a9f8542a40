use ctm::store::{get_output, Tasks};
use ctm::task::{CapturedOutput, CommandStatus};

fn output_with(stdout: &[u8], stderr: &[u8], code: i32) -> CapturedOutput {
    CapturedOutput {
        exit_ok: code == 0,
        exit_code: Some(code),
        stdout: stdout.to_vec(),
        stderr: stderr.to_vec(),
    }
}

#[test]
fn submit_assigns_sequential_ids() {
    let mut tasks = Tasks::default();
    let a = tasks.submit(String::from("echo a"));
    let b = tasks.submit(String::from("echo b"));
    let c = tasks.submit(String::from("echo c"));
    assert_eq!(a, 0);
    assert_eq!(b, 1);
    assert_eq!(c, 2);
}

#[test]
fn dequeue_is_fifo() {
    let mut tasks = Tasks::default();
    let a = tasks.submit(String::from("first"));
    let b = tasks.submit(String::from("second"));
    let c = tasks.submit(String::from("third"));
    let (id1, cmd1) = tasks.dequeue().unwrap();
    let (id2, cmd2) = tasks.dequeue().unwrap();
    let (id3, cmd3) = tasks.dequeue().unwrap();
    assert_eq!((id1, cmd1.as_str()), (a, "first"));
    assert_eq!((id2, cmd2.as_str()), (b, "second"));
    assert_eq!((id3, cmd3.as_str()), (c, "third"));
    assert!(tasks.dequeue().is_none());
}

#[test]
fn dequeue_on_empty_store_returns_nothing() {
    let mut tasks = Tasks::default();
    assert!(tasks.dequeue().is_none());
}

#[test]
fn push_queue_with_explicit_id_keeps_ids_fresh() {
    let mut tasks = Tasks::default();
    tasks.push_queue(7, String::from("late"));
    let next = tasks.submit(String::from("after"));
    assert_eq!(next, 8);
}

#[test]
fn round_trip_echo() {
    let mut tasks = Tasks::default();
    let id = tasks.submit(String::from("echo hello"));
    let (got, cmd) = tasks.dequeue().unwrap();
    assert_eq!(got, id);
    assert_eq!(cmd, "echo hello");
    tasks.begin_execution_at(id, &cmd, 1_000);
    tasks.record_completion_at(id, 1_005, output_with(b"hello\n", b"", 0));
    let out = get_output(id, &tasks).unwrap();
    assert_eq!(out.stdout, b"hello\n".to_vec());
    assert_eq!(out.stderr, Vec::<u8>::new());
    assert!(out.exit_ok);
    assert_eq!(out.exit_code, Some(0));
}

#[test]
fn finished_record_preserves_command_and_times() {
    let mut tasks = Tasks::default();
    let id = tasks.submit(String::from("sleep 1"));
    let (got, cmd) = tasks.dequeue().unwrap();
    tasks.begin_execution_at(got, &cmd, 500);
    tasks.record_completion_at(got, 750, output_with(b"", b"", 0));
    let finished = tasks.get_finished();
    let rec = finished.get(&id).unwrap();
    assert_eq!(rec.command, "sleep 1");
    assert_eq!(rec.start_time, 500);
    assert_eq!(rec.finish_time, Some(750));
    assert!(matches!(rec.status, CommandStatus::Finished));
    assert!(rec.finish_time.unwrap() >= rec.start_time);
}

#[test]
fn id_never_in_two_containers() {
    let mut tasks = Tasks::default();
    let id = tasks.submit(String::from("echo x"));
    // pending: in the queue only
    assert!(!tasks.get_currently_running().contains_key(&id));
    assert!(!tasks.get_finished().contains_key(&id));
    let (got, cmd) = tasks.dequeue().unwrap();
    tasks.begin_execution_at(got, &cmd, 10);
    // running: in the running-set only
    assert!(tasks.get_currently_running().contains_key(&id));
    assert!(!tasks.get_finished().contains_key(&id));
    tasks.record_completion_at(got, 20, output_with(b"x\n", b"", 0));
    // finished: in the finished-set only
    assert!(!tasks.get_currently_running().contains_key(&id));
    assert!(tasks.get_finished().contains_key(&id));
}

#[test]
fn spawn_failure_vanishes() {
    let mut tasks = Tasks::default();
    let id = tasks.submit(String::from("this-binary-does-not-exist-xyz"));
    let (got, cmd) = tasks.dequeue().unwrap();
    assert_eq!(got, id);
    tasks.begin_execution_at(got, &cmd, 42);
    assert!(tasks.get_currently_running().contains_key(&id));
    tasks.record_spawn_failure(got);
    assert!(!tasks.get_currently_running().contains_key(&id));
    assert!(!tasks.get_finished().contains_key(&id));
    assert!(get_output(id, &tasks).is_none());
}

#[test]
fn fetch_output_is_idempotent() {
    let mut tasks = Tasks::default();
    let id = tasks.submit(String::from("echo twice"));
    let (got, cmd) = tasks.dequeue().unwrap();
    tasks.begin_execution_at(got, &cmd, 0);
    tasks.record_completion_at(got, 3, output_with(b"twice\n", b"warn\n", 0));
    let first = get_output(id, &tasks).unwrap();
    let second = get_output(id, &tasks).unwrap();
    assert_eq!(first.stdout, second.stdout);
    assert_eq!(first.stderr, second.stderr);
    assert_eq!(first.exit_ok, second.exit_ok);
    assert_eq!(first.exit_code, second.exit_code);
}

#[test]
fn fetch_output_fails_for_unknown_id() {
    let tasks = Tasks::default();
    assert!(get_output(99, &tasks).is_none());
}

#[test]
fn fetch_output_fails_while_pending_or_running() {
    let mut tasks = Tasks::default();
    let id = tasks.submit(String::from("echo wait"));
    assert!(get_output(id, &tasks).is_none());
    let (got, cmd) = tasks.dequeue().unwrap();
    tasks.begin_execution_at(got, &cmd, 1);
    assert!(get_output(id, &tasks).is_none());
}

#[test]
fn nonzero_exit_is_still_finished() {
    let mut tasks = Tasks::default();
    let id = tasks.submit(String::from("false"));
    let (got, cmd) = tasks.dequeue().unwrap();
    tasks.begin_execution_at(got, &cmd, 1);
    tasks.record_completion_at(got, 2, output_with(b"", b"", 1));
    let out = get_output(id, &tasks).unwrap();
    assert!(!out.exit_ok);
    assert_eq!(out.exit_code, Some(1));
}

#[test]
fn stress_hundred_tasks_all_finish() {
    let mut tasks = Tasks::default();
    let mut ids = Vec::new();
    for i in 0..100usize {
        ids.push(tasks.submit(format!("echo {i}")));
    }
    let mut clock: i64 = 0;
    while let Some((id, cmd)) = tasks.dequeue() {
        clock += 1;
        tasks.begin_execution_at(id, &cmd, clock);
        clock += 1;
        tasks.record_completion_at(id, clock, output_with(b"done\n", b"", 0));
    }
    let finished = tasks.get_finished();
    assert_eq!(finished.len(), 100);
    for id in ids {
        let rec = finished.get(&id).unwrap();
        assert!(rec.finish_time.unwrap() >= rec.start_time);
        assert!(matches!(rec.status, CommandStatus::Finished));
    }
    assert!(tasks.get_currently_running().is_empty());
}

#[test]
fn completion_clamps_backward_clock() {
    let mut tasks = Tasks::default();
    let id = tasks.submit(String::from("echo clock"));
    let (got, cmd) = tasks.dequeue().unwrap();
    // a start stamp far in the future of the wall clock
    tasks.begin_execution_at(got, &cmd, i64::MAX - 1);
    let finish = tasks.record_completion(got, output_with(b"", b"", 0));
    assert!(finish >= i64::MAX - 1);
    let rec_finish = tasks.get_finished().get(&id).unwrap().finish_time.unwrap();
    assert!(rec_finish >= i64::MAX - 1);
}

#[test]
fn wall_clock_protocol_runs() {
    let mut tasks = Tasks::default();
    let id = tasks.submit(String::from("echo now"));
    let (got, cmd) = tasks.dequeue().unwrap();
    let started = tasks.begin_execution(got, &cmd);
    let running = tasks.get_currently_running();
    assert_eq!(running.get(&id).unwrap().start_time, started);
    assert!(matches!(
        running.get(&id).unwrap().status,
        CommandStatus::Running
    ));
    let finish = tasks.record_completion(got, output_with(b"now\n", b"", 0));
    assert!(finish >= started);
    let out = get_output(id, &tasks).unwrap();
    assert_eq!(out.stdout, b"now\n".to_vec());
}

#[test]
fn status_labels() {
    assert_eq!(CommandStatus::InQueue.label(), "In Queue");
    assert_eq!(CommandStatus::Running.label(), "Running");
    assert_eq!(CommandStatus::Finished.label(), "Finished");
}

#[test]
fn is_pending_tracks_the_queue() {
    let mut tasks = Tasks::default();
    assert!(!tasks.is_pending(0));
    let id = tasks.submit(String::from("echo q"));
    assert!(tasks.is_pending(id));
    let (got, _cmd) = tasks.dequeue().unwrap();
    assert_eq!(got, id);
    assert!(!tasks.is_pending(id));
}
