use service_manager::command::{Command, Key, StdioMode};
use service_manager::config::Service as ServiceConfig;
use service_manager::controller::run_app;
use service_manager::error::SmError;
use service_manager::model::{make_chunk, App, StdioSendBuf};
use service_manager::output::OUTPUT_CAP;
use service_manager::reader::kill_marker_chunk;
use service_manager::status::ServiceStatus;
use std::collections::HashMap;
use std::sync::mpsc::TryRecvError;
use std::time::Duration;

fn entry(name: &str, command: &str) -> (String, ServiceConfig) {
    (
        name.to_string(),
        ServiceConfig { command: command.to_string(), workdir: None, env: None },
    )
}

fn app_with(names: &[&str]) -> App {
    let config = names.iter().map(|name| entry(name, "true")).collect();
    App::new(config, Ok("/srv".to_string())).unwrap()
}

fn chunk(bytes: &[u8]) -> StdioSendBuf {
    let mut buffer = [0u8; 512];
    buffer[..bytes.len()].copy_from_slice(bytes);
    (buffer, bytes.len())
}

fn tick() -> Duration {
    Duration::from_millis(10)
}

fn set_cell(app: &App, index: usize, status: ServiceStatus) {
    *app.table.services[index].status.lock().unwrap() = status;
}

fn cell(app: &App, index: usize) -> ServiceStatus {
    *app.table.services[index].status.lock().unwrap()
}

fn start(app: &mut App, index: usize) -> std::sync::mpsc::Receiver<()> {
    assert!(app.start_service(index).is_some());
    app.spawn_succeeded(index).unwrap().unwrap()
}

#[test]
fn new_registry_takes_services_in_order() {
    let mut env = HashMap::new();
    env.insert("PORT".to_string(), "8080".to_string());
    let config = vec![
        (
            "api".to_string(),
            ServiceConfig {
                command: "cargo run".to_string(),
                workdir: Some("/srv/api".to_string()),
                env: Some(env.clone()),
            },
        ),
        entry("web", "npm start"),
    ];
    let app = App::new(config, Ok("/home/me".to_string())).unwrap();
    assert_eq!(app.table.services.len(), 2);
    assert_eq!(app.table.services[0].name, "api");
    assert_eq!(app.table.services[0].command, "cargo run");
    assert_eq!(app.table.services[0].workdir, "/srv/api");
    assert_eq!(app.table.services[0].env, env);
    assert_eq!(app.table.services[1].name, "web");
    assert_eq!(app.table.services[1].command, "npm start");
    assert_eq!(app.table.services[1].workdir, "/home/me");
    assert!(app.table.services[1].env.is_empty());
    for index in 0..2 {
        assert_eq!(app.status(index), Some(ServiceStatus::NotStarted));
        assert_eq!(cell(&app, index), ServiceStatus::NotStarted);
        assert_eq!(app.table.services[index].output.len(), 0);
    }
    assert_eq!(app.status(2), None);
    assert_eq!(app.table.table_state.selected(), None);
    assert_eq!(app.selected, None);
    assert_eq!(app.scroll_pos, None);
    assert!(app.thread_terminates.is_empty());
    assert!(app.is_table());
}

#[test]
fn new_registry_needs_the_current_directory_only_where_a_workdir_is_missing() {
    let with_dirs = vec![(
        "a".to_string(),
        ServiceConfig { command: "x".to_string(), workdir: Some("/a".to_string()), env: None },
    )];
    let app = App::new(with_dirs, Err("no current directory".to_string())).unwrap();
    assert_eq!(app.table.services[0].workdir, "/a");
    let without = vec![entry("a", "x")];
    match App::new(without, Err("no current directory".to_string())) {
        Err(e) => assert_eq!(e, SmError::Io("no current directory".to_string())),
        Ok(_) => panic!("a registry was made without a working directory"),
    }
    assert!(App::new(Vec::new(), Err("gone".to_string())).is_ok());
}

#[test]
fn next_moves_down_and_wraps() {
    let mut app = app_with(&["a", "b", "c"]);
    app.next();
    assert_eq!(app.table.table_state.selected(), Some(0));
    app.next();
    assert_eq!(app.table.table_state.selected(), Some(1));
    app.next();
    assert_eq!(app.table.table_state.selected(), Some(2));
    app.next();
    assert_eq!(app.table.table_state.selected(), Some(0));
}

#[test]
fn previous_moves_up_and_wraps() {
    let mut app = app_with(&["a", "b", "c"]);
    app.previous();
    assert_eq!(app.table.table_state.selected(), Some(0));
    app.previous();
    assert_eq!(app.table.table_state.selected(), Some(2));
    app.previous();
    assert_eq!(app.table.table_state.selected(), Some(1));
}

#[test]
fn moving_in_an_empty_table_highlights_the_first_row() {
    let mut app = app_with(&[]);
    app.next();
    assert_eq!(app.table.table_state.selected(), Some(0));
    app.next();
    assert_eq!(app.table.table_state.selected(), Some(0));
    app.previous();
    assert_eq!(app.table.table_state.selected(), Some(0));
    assert_eq!(app.target(), None);
    assert!(app.run_service().unwrap().is_none());
    assert_eq!(app.kill_service(), Ok(None));
}

#[test]
fn select_and_leave_switch_between_table_and_full_view() {
    let mut app = app_with(&["a", "b"]);
    app.select_service();
    assert_eq!(app.selected, None);
    app.next();
    app.next();
    app.select_service();
    assert_eq!(app.selected, Some(1));
    assert!(!app.is_table());
    app.table.table_state.select(Some(0));
    app.select_service();
    assert_eq!(app.selected, Some(1));
    assert_eq!(app.target(), Some(1));
    app.leave_service();
    assert_eq!(app.selected, None);
    assert_eq!(app.target(), Some(0));
}

#[test]
fn scrolling_moves_a_position_that_is_set_and_stops_at_the_ends() {
    let mut app = app_with(&["a"]);
    app.scroll_up();
    app.scroll_down();
    assert_eq!(app.scroll_pos, None);
    app.scroll_pos = Some(1);
    app.scroll_up();
    assert_eq!(app.scroll_pos, Some(2));
    app.scroll_down();
    app.scroll_down();
    assert_eq!(app.scroll_pos, Some(0));
    app.scroll_down();
    assert_eq!(app.scroll_pos, Some(0));
    app.scroll_pos = Some(usize::MAX);
    app.scroll_up();
    assert_eq!(app.scroll_pos, Some(usize::MAX));
}

#[test]
fn start_request_asks_for_a_shell_with_piped_streams() {
    let mut env = HashMap::new();
    env.insert("A".to_string(), "1".to_string());
    let config = vec![(
        "echo-once".to_string(),
        ServiceConfig {
            command: "echo hi".to_string(),
            workdir: Some("/tmp/work".to_string()),
            env: Some(env.clone()),
        },
    )];
    let mut app = App::new(config, Ok("/".to_string())).unwrap();
    let request = app.start_service(0).unwrap();
    assert_eq!(request.index, 0);
    assert_eq!(request.program, "sh");
    assert_eq!(request.args, vec!["-c".to_string(), "echo hi".to_string()]);
    assert_eq!(request.workdir, "/tmp/work");
    assert_eq!(request.env, env);
    assert_eq!(request.stdin, StdioMode::Piped);
    assert_eq!(request.stdout, StdioMode::Piped);
    assert_eq!(request.stderr, StdioMode::Piped);
    assert_eq!(app.status(0), Some(ServiceStatus::NotStarted));
    assert!(app.thread_terminates.is_empty());
}

#[test]
fn start_request_for_no_service_does_nothing() {
    let mut app = app_with(&["a"]);
    assert!(app.start_service(1).is_none());
    assert!(app.spawn_succeeded(1).unwrap().is_none());
    assert!(app.thread_terminates.is_empty());
}

#[test]
fn spawned_service_runs_and_has_a_signal_registered() {
    let mut app = app_with(&["a", "b"]);
    let signal = start(&mut app, 1);
    assert_eq!(app.status(1), Some(ServiceStatus::Running));
    assert_eq!(cell(&app, 1), ServiceStatus::Running);
    assert_eq!(app.status(0), Some(ServiceStatus::NotStarted));
    assert!(app.thread_terminates.contains_key(&1));
    assert!(!app.thread_terminates.contains_key(&0));
    assert_eq!(signal.try_recv(), Err(TryRecvError::Empty));
}

#[test]
fn start_of_a_running_service_changes_nothing() {
    let mut app = app_with(&["a"]);
    let signal = start(&mut app, 0);
    app.table.services[0].stdout.send.send(chunk(b"output\n")).unwrap();
    app.recv_stdouts(tick());
    assert!(app.start_service(0).is_none());
    assert!(app.spawn_succeeded(0).unwrap().is_none());
    assert_eq!(app.status(0), Some(ServiceStatus::Running));
    assert_eq!(app.table.services[0].output.bytes().as_slice(), b"output\n");
    assert_eq!(app.thread_terminates.len(), 1);
    app.table.table_state.select(Some(0));
    assert!(app.run_service().unwrap().is_none());
    assert!(matches!(run_app(&mut app, Key::Char('r')), Ok(Command::Continue)));
    assert_eq!(app.table.services[0].output.bytes().as_slice(), b"output\n");
    app.kill_service().unwrap();
    assert_eq!(signal.try_recv(), Ok(()));
    assert_eq!(signal.try_recv(), Err(TryRecvError::Empty));
}

#[test]
fn restart_after_the_end_of_a_run_drops_the_output() {
    let mut app = app_with(&["a"]);
    let _first = start(&mut app, 0);
    app.table.services[0].stdout.send.send(chunk(b"first run\n")).unwrap();
    app.recv_stdouts(tick());
    set_cell(&app, 0, ServiceStatus::Failed(3));
    app.table.table_state.select(Some(0));
    let request = app.run_service().unwrap();
    assert!(request.is_some());
    assert_eq!(app.status(0), Some(ServiceStatus::Failed(3)));
    assert_eq!(app.table.services[0].output.len(), 0);
    assert!(app.table.services[0].output.line_index().is_empty());
    let _second = app.spawn_succeeded(0).unwrap().unwrap();
    assert_eq!(app.status(0), Some(ServiceStatus::Running));
}

#[test]
fn finish_run_records_one_terminal_state_per_run() {
    let mut app = app_with(&["a"]);
    assert!(!app.finish_run(0, ServiceStatus::Exited));
    assert_eq!(app.status(0), Some(ServiceStatus::NotStarted));
    let _signal = start(&mut app, 0);
    assert!(!app.finish_run(0, ServiceStatus::Running));
    assert!(!app.finish_run(0, ServiceStatus::NotStarted));
    assert!(!app.finish_run(5, ServiceStatus::Exited));
    assert!(app.finish_run(0, ServiceStatus::Failed(2)));
    assert_eq!(app.status(0), Some(ServiceStatus::Failed(2)));
    assert!(!app.finish_run(0, ServiceStatus::Killed));
    assert_eq!(app.status(0), Some(ServiceStatus::Failed(2)));
}

#[test]
fn observed_run_states_follow_the_life_cycle() {
    let mut app = app_with(&["a"]);
    let mut seen = vec![app.status(0).unwrap()];
    let mut observe = |app: &mut App| {
        app.sync_statuses();
        let now = app.status(0).unwrap();
        if *seen.last().unwrap() != now {
            seen.push(now);
        }
        seen.clone()
    };
    observe(&mut app);
    let _s1 = start(&mut app, 0);
    observe(&mut app);
    assert!(app.start_service(0).is_none());
    observe(&mut app);
    set_cell(&app, 0, ServiceStatus::Exited);
    observe(&mut app);
    observe(&mut app);
    let _s2 = start(&mut app, 0);
    observe(&mut app);
    set_cell(&app, 0, ServiceStatus::Killed);
    observe(&mut app);
    let _s3 = start(&mut app, 0);
    observe(&mut app);
    set_cell(&app, 0, ServiceStatus::Failed(1));
    let history = observe(&mut app);
    assert_eq!(
        history,
        vec![
            ServiceStatus::NotStarted,
            ServiceStatus::Running,
            ServiceStatus::Exited,
            ServiceStatus::Running,
            ServiceStatus::Killed,
            ServiceStatus::Running,
            ServiceStatus::Failed(1),
        ]
    );
}

#[test]
fn sync_ignores_what_is_not_the_end_of_a_run() {
    let mut app = app_with(&["a", "b"]);
    set_cell(&app, 0, ServiceStatus::Exited);
    app.sync_statuses();
    assert_eq!(app.status(0), Some(ServiceStatus::NotStarted));
    let _signal = start(&mut app, 1);
    set_cell(&app, 1, ServiceStatus::NotStarted);
    assert_eq!(app.sync_status(1), Ok(Some(ServiceStatus::NotStarted)));
    assert_eq!(app.status(1), Some(ServiceStatus::Running));
    assert_eq!(app.sync_status(9), Ok(None));
    set_cell(&app, 1, ServiceStatus::Exited);
    assert_eq!(app.sync_status(1), Ok(Some(ServiceStatus::Exited)));
    assert_eq!(app.status(1), Some(ServiceStatus::Exited));
}

#[test]
fn kill_of_a_service_that_does_not_run_sends_nothing() {
    let mut app = app_with(&["a"]);
    app.table.table_state.select(Some(0));
    assert_eq!(app.kill_target(), Ok(None));
    assert_eq!(app.kill_service(), Ok(None));
    let signal = start(&mut app, 0);
    set_cell(&app, 0, ServiceStatus::Exited);
    assert_eq!(app.kill_service(), Ok(None));
    assert!(matches!(run_app(&mut app, Key::Char('k')), Ok(Command::Continue)));
    assert_eq!(app.status(0), Some(ServiceStatus::Exited));
    assert_eq!(signal.try_recv(), Err(TryRecvError::Empty));
    assert_eq!(app.thread_terminates.len(), 1);
}

#[test]
fn kill_of_a_running_service_sends_one_request() {
    let mut app = app_with(&["a", "b"]);
    let first = start(&mut app, 0);
    let second = start(&mut app, 1);
    app.table.table_state.select(Some(1));
    assert_eq!(app.kill_target(), Ok(Some(1)));
    assert_eq!(app.kill_service(), Ok(Some(1)));
    assert_eq!(second.try_recv(), Ok(()));
    assert_eq!(second.try_recv(), Err(TryRecvError::Empty));
    assert_eq!(first.try_recv(), Err(TryRecvError::Empty));
    assert_eq!(app.status(1), Some(ServiceStatus::Running));
}

#[test]
fn kill_without_a_registered_signal_is_a_bug() {
    let mut app = app_with(&["a"]);
    app.table.services[0].observed = ServiceStatus::Running;
    set_cell(&app, 0, ServiceStatus::Running);
    app.table.table_state.select(Some(0));
    assert_eq!(
        app.kill_service(),
        Err(SmError::Bug("Child termination channel not found"))
    );
    assert_eq!(
        app.kill_target(),
        Err(SmError::Bug("Child termination channel not found"))
    );
}

#[test]
fn kill_signal_that_nobody_hears_is_a_bug() {
    let mut app = app_with(&["a"]);
    let signal = start(&mut app, 0);
    drop(signal);
    app.table.table_state.select(Some(0));
    assert_eq!(
        app.kill_service(),
        Err(SmError::Bug("Failed to send termination signal to child process"))
    );
}

#[test]
fn killed_service_shows_killed_and_the_marker_once() {
    let mut app = app_with(&["sleeper"]);
    let signal = start(&mut app, 0);
    app.table.table_state.select(Some(0));
    app.kill_service().unwrap();
    assert_eq!(signal.try_recv(), Ok(()));
    set_cell(&app, 0, ServiceStatus::Killed);
    app.table.services[0].stdout.send.send(kill_marker_chunk()).unwrap();
    app.recv_stdouts(tick());
    app.sync_statuses();
    assert_eq!(app.status(0), Some(ServiceStatus::Killed));
    let output = app.table.services[0].output.bytes().clone();
    let marker = b"\n\n<Process was killed>\n";
    assert!(output.ends_with(marker));
    assert_eq!(output.windows(marker.len()).filter(|w| w == marker).count(), 1);
}

#[test]
fn echo_once_shows_exited_and_its_output() {
    let config = vec![entry("echo-once", "echo hi")];
    let mut app = App::new(config, Ok("/".to_string())).unwrap();
    app.next();
    let request = match run_app(&mut app, Key::Char('r')) {
        Ok(Command::Spawn(request)) => request,
        other => panic!("no spawn was asked for: {:?}", other),
    };
    assert_eq!(request.args[1], "echo hi");
    let _signal = app.spawn_succeeded(request.index).unwrap().unwrap();
    app.table.services[0].stdout.send.send(chunk(b"hi\n")).unwrap();
    set_cell(&app, 0, ServiceStatus::from_exit_code(Some(0)));
    app.recv_stdouts(tick());
    app.sync_statuses();
    assert_eq!(app.status(0), Some(ServiceStatus::Exited));
    assert_eq!(app.table.services[0].output.bytes().as_slice(), b"hi\n");
    assert_eq!(app.table.services[0].output.line_index().as_slice(), &[2]);
}

#[test]
fn failed_spawn_shows_the_description_in_the_output() {
    let mut app = app_with(&["broken"]);
    assert!(app.start_service(0).is_some());
    let description = "No such file or directory (os error 2)".to_string();
    let error = app.spawn_failed(0, description.clone());
    assert_eq!(error, SmError::FailedToStartChild(description.clone()));
    assert_eq!(app.status(0), Some(ServiceStatus::NotStarted));
    assert_eq!(cell(&app, 0), ServiceStatus::NotStarted);
    assert!(app.thread_terminates.is_empty());
    let (buffer, count) = app.table.services[0].stdout.recv.try_recv().unwrap();
    assert_eq!(&buffer[..count], description.as_bytes());
    assert!(app.table.services[0].stdout.recv.try_recv().is_err());
    app.table.services[0].stdout.send.send((buffer, count)).unwrap();
    app.recv_stdouts(tick());
    assert_eq!(app.table.services[0].output.bytes().as_slice(), description.as_bytes());
}

#[test]
fn failure_chunk_holds_the_description() {
    let (buffer, count) = App::failure_chunk("spawn failed").unwrap();
    assert_eq!(count, 12);
    assert_eq!(&buffer[..count], b"spawn failed");
    let longest = "x".repeat(512);
    let (buffer, count) = App::failure_chunk(&longest).unwrap();
    assert_eq!(count, 512);
    assert_eq!(&buffer[..], longest.as_bytes());
    let (_, count) = App::failure_chunk("").unwrap();
    assert_eq!(count, 0);
}

#[test]
fn description_too_long_for_a_chunk_is_an_io_error() {
    let app = app_with(&["a"]);
    let too_long = "x".repeat(513);
    assert_eq!(
        App::failure_chunk(&too_long),
        Err(SmError::Io("failed to write whole buffer".to_string()))
    );
    assert_eq!(
        app.spawn_failed(0, too_long),
        SmError::Io("failed to write whole buffer".to_string())
    );
    assert!(app.table.services[0].stdout.recv.try_recv().is_err());
}

#[test]
fn drain_appends_chunks_to_their_service() {
    let mut app = app_with(&["a", "b", "c"]);
    let pending = vec![
        vec![b"one\n".to_vec(), b"two\n".to_vec()],
        vec![],
        vec![b"x".to_vec()],
        vec![b"beyond the last service".to_vec()],
    ];
    app.drain(&pending);
    assert_eq!(app.table.services[0].output.bytes().as_slice(), b"one\ntwo\n");
    assert_eq!(app.table.services[0].output.line_index().as_slice(), &[3, 7]);
    assert_eq!(app.table.services[1].output.len(), 0);
    assert_eq!(app.table.services[2].output.bytes().as_slice(), b"x");
    app.drain(&vec![vec![b"three".to_vec()]]);
    assert_eq!(app.table.services[0].output.bytes().as_slice(), b"one\ntwo\nthree");
    assert_eq!(app.table.services[2].output.bytes().as_slice(), b"x");
}

#[test]
fn recv_stdouts_drains_what_waits_in_arrival_order() {
    let mut app = app_with(&["a", "b"]);
    let sender = app.table.services[0].stdout.send.clone();
    sender.send(chunk(b"out 1\n")).unwrap();
    app.table.services[0].stdout.send.send(chunk(b"err 1\n")).unwrap();
    sender.send(chunk(b"out 2")).unwrap();
    app.table.services[1].stdout.send.send(chunk(b"other")).unwrap();
    app.recv_stdouts(Duration::from_secs(5));
    assert_eq!(app.table.services[0].output.bytes().as_slice(), b"out 1\nerr 1\nout 2");
    assert_eq!(app.table.services[0].output.line_index().as_slice(), &[5, 11]);
    assert_eq!(app.table.services[1].output.bytes().as_slice(), b"other");
    app.recv_stdouts(Duration::from_secs(5));
    assert_eq!(app.table.services[0].output.bytes().as_slice(), b"out 1\nerr 1\nout 2");
}

#[test]
fn recv_stdouts_takes_one_chunk_at_least_and_leaves_the_rest_when_time_is_up() {
    let mut app = app_with(&["a"]);
    for _ in 0..3 {
        app.table.services[0].stdout.send.send(chunk(b"ab")).unwrap();
    }
    app.recv_stdouts(Duration::from_secs(0));
    let first = app.table.services[0].output.len();
    assert!(first >= 2 && first <= 6 && first % 2 == 0);
    app.recv_stdouts(Duration::from_secs(5));
    assert_eq!(app.table.services[0].output.bytes().as_slice(), b"ababab");
}

#[test]
fn receive_counts_only_the_bytes_that_the_chunk_says() {
    let mut app = app_with(&["a"]);
    let mut buffer = [b'z'; 512];
    buffer[0] = b'a';
    buffer[1] = b'\n';
    app.receive(0, &(buffer, 2));
    assert_eq!(app.table.services[0].output.bytes().as_slice(), b"a\n");
    app.receive(0, &(buffer, 0));
    assert_eq!(app.table.services[0].output.len(), 2);
    app.receive(0, &(buffer, 9999));
    assert_eq!(app.table.services[0].output.len(), 514);
}

#[test]
fn output_past_the_cap_starts_over() {
    let mut app = app_with(&["a"]);
    let full = [b'\n'; 512];
    let mut sent = 0;
    while sent + 512 <= OUTPUT_CAP {
        app.receive(0, &(full, 512));
        sent += 512;
    }
    assert_eq!(app.table.services[0].output.len(), sent);
    assert_eq!(app.table.services[0].output.line_index().len(), sent);
    app.receive(0, &(full, 512));
    assert_eq!(app.table.services[0].output.len(), 0);
    assert!(app.table.services[0].output.line_index().is_empty());
}

#[test]
fn shutdown_asks_every_running_service_to_end() {
    let mut app = app_with(&["a", "b", "c", "d"]);
    let first = start(&mut app, 0);
    let second = start(&mut app, 1);
    let third = start(&mut app, 3);
    assert!(app.finish_run(1, ServiceStatus::Exited));
    assert_eq!(app.shutdown_targets(), vec![0, 3]);
    drop(third);
    assert_eq!(app.shutdown(), vec![(0, true), (3, false)]);
    assert_eq!(first.try_recv(), Ok(()));
    assert_eq!(second.try_recv(), Err(TryRecvError::Empty));
}

#[test]
fn keys_drive_the_registry() {
    let mut app = app_with(&["a", "b"]);
    assert!(matches!(run_app(&mut app, Key::Down), Ok(Command::Continue)));
    assert!(matches!(run_app(&mut app, Key::Down), Ok(Command::Continue)));
    assert_eq!(app.table.table_state.selected(), Some(1));
    assert!(matches!(run_app(&mut app, Key::Up), Ok(Command::Continue)));
    assert_eq!(app.table.table_state.selected(), Some(0));
    assert!(matches!(run_app(&mut app, Key::Enter), Ok(Command::Continue)));
    assert_eq!(app.selected, Some(0));
    app.scroll_pos = Some(3);
    assert!(matches!(run_app(&mut app, Key::Up), Ok(Command::Continue)));
    assert_eq!(app.scroll_pos, Some(4));
    assert!(matches!(run_app(&mut app, Key::Down), Ok(Command::Continue)));
    assert_eq!(app.scroll_pos, Some(3));
    assert_eq!(app.table.table_state.selected(), Some(0));
    assert!(matches!(run_app(&mut app, Key::Char('q')), Ok(Command::Continue)));
    assert_eq!(app.selected, None);
    assert!(matches!(run_app(&mut app, Key::Enter), Ok(Command::Continue)));
    assert!(matches!(run_app(&mut app, Key::Esc), Ok(Command::Continue)));
    assert_eq!(app.selected, None);
    assert!(matches!(run_app(&mut app, Key::Other), Ok(Command::Continue)));
    assert!(matches!(run_app(&mut app, Key::Char('x')), Ok(Command::Continue)));
    assert!(matches!(run_app(&mut app, Key::Char('q')), Ok(Command::Quit)));
}

#[test]
fn r_and_k_start_and_end_the_service_aimed_at() {
    let mut app = app_with(&["a", "b"]);
    assert!(matches!(run_app(&mut app, Key::Char('r')), Ok(Command::Continue)));
    app.next();
    app.next();
    let request = match run_app(&mut app, Key::Char('r')) {
        Ok(Command::Spawn(request)) => request,
        other => panic!("no spawn was asked for: {:?}", other),
    };
    assert_eq!(request.index, 1);
    let signal = app.spawn_succeeded(1).unwrap().unwrap();
    assert!(matches!(run_app(&mut app, Key::Char('k')), Ok(Command::Terminated(1))));
    assert_eq!(signal.try_recv(), Ok(()));
    app.table.table_state.select(Some(0));
    assert!(matches!(run_app(&mut app, Key::Char('k')), Ok(Command::Continue)));
    assert_eq!(signal.try_recv(), Err(TryRecvError::Empty));
}

#[test]
fn failed_spawn_that_cannot_be_shown_is_its_own_error() {
    let mut app = app_with(&["a"]);
    let (send, recv) = std::sync::mpsc::channel();
    drop(recv);
    app.table.services[0].stdout.send = send;
    assert_eq!(
        app.spawn_failed(0, "not found".to_string()),
        SmError::FailedToSendStdio
    );
    assert_eq!(
        app.spawn_failed(7, "not found".to_string()),
        SmError::FailedToStartChild("not found".to_string())
    );
}

#[test]
fn make_chunk_counts_the_bytes_it_holds() {
    let (buffer, count) = make_chunk(b"abc").unwrap();
    assert_eq!(count, 3);
    assert_eq!(&buffer[..3], b"abc");
    assert!(buffer[3..].iter().all(|byte| *byte == 0));
    assert!(make_chunk(&[7u8; 512]).is_some());
    assert!(make_chunk(&[7u8; 513]).is_none());
    assert_eq!(make_chunk(b"").unwrap().1, 0);
}

#[test]
fn receive_for_no_service_does_nothing() {
    let mut app = app_with(&["a"]);
    app.receive(3, &chunk(b"lost"));
    assert_eq!(app.table.services[0].output.len(), 0);
}

#[test]
fn kill_by_index_sends_only_to_a_running_service() {
    let mut app = app_with(&["a", "b"]);
    assert_eq!(app.kill(0), Ok(false));
    assert_eq!(app.kill(2), Ok(false));
    let signal = start(&mut app, 1);
    assert_eq!(app.kill(0), Ok(false));
    assert_eq!(signal.try_recv(), Err(TryRecvError::Empty));
    assert_eq!(app.kill(1), Ok(true));
    assert_eq!(signal.try_recv(), Ok(()));
    set_cell(&app, 1, ServiceStatus::Failed(9));
    assert_eq!(app.kill(1), Ok(false));
    assert_eq!(app.status(1), Some(ServiceStatus::Failed(9)));
    assert_eq!(signal.try_recv(), Err(TryRecvError::Empty));
}

#[test]
fn q_in_the_table_asks_running_services_to_end() {
    let mut app = app_with(&["a", "b"]);
    let first = start(&mut app, 0);
    let second = start(&mut app, 1);
    assert!(app.finish_run(1, ServiceStatus::Exited));
    app.selected = Some(0);
    assert!(matches!(run_app(&mut app, Key::Char('q')), Ok(Command::Continue)));
    assert_eq!(first.try_recv(), Err(TryRecvError::Empty));
    assert!(matches!(run_app(&mut app, Key::Char('q')), Ok(Command::Quit)));
    assert_eq!(first.try_recv(), Ok(()));
    assert_eq!(second.try_recv(), Err(TryRecvError::Empty));
}

#[test]
fn shutdown_with_nothing_running_asks_nobody() {
    let mut app = app_with(&["a", "b"]);
    assert!(app.shutdown().is_empty());
    let signal = start(&mut app, 1);
    assert!(app.finish_run(1, ServiceStatus::Killed));
    assert!(app.shutdown().is_empty());
    assert_eq!(signal.try_recv(), Err(TryRecvError::Empty));
}

#[test]
fn sync_statuses_says_what_it_saw_of_each_service() {
    let mut app = app_with(&["a", "b", "c"]);
    let _first = start(&mut app, 0);
    let _third = start(&mut app, 2);
    set_cell(&app, 0, ServiceStatus::Failed(4));
    set_cell(&app, 1, ServiceStatus::Exited);
    assert_eq!(
        app.sync_statuses(),
        vec![
            Ok(ServiceStatus::Failed(4)),
            Ok(ServiceStatus::Exited),
            Ok(ServiceStatus::Running),
        ]
    );
    assert_eq!(app.status(0), Some(ServiceStatus::Failed(4)));
    assert_eq!(app.status(1), Some(ServiceStatus::NotStarted));
    assert_eq!(app.status(2), Some(ServiceStatus::Running));
    assert!(app_with(&[]).sync_statuses().is_empty());
}
