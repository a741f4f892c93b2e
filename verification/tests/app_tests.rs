use autopilot::app::{App, Dispatch, WorkerStep};
use autopilot::config::{
    Action, CommandType, Config, LoopConfig, RemoteConfig, Stage, StyleConfig, SudoConfig,
};
use autopilot::model::{ActionStatus, Input, Key, StatusIndicator};
use autopilot::session::{
    Environment, ExecutionError, Invocation, LocalIdentity, SessionError,
};

fn me() -> LocalIdentity {
    LocalIdentity { user: "demo".to_string(), host: "box".to_string() }
}

fn message(text: &str) -> Action {
    Action::Message { text: text.to_string(), style: None, speed: None }
}

fn command(line: &str) -> Action {
    Action::Command {
        command: CommandType::Single(line.to_string()),
        sudo: None,
        hide_stdout: None,
        hide_stderr: None,
        remote: None,
        loop_config: None,
    }
}

fn repeated(line: &str, times: u32, delay: Option<u64>, hide_stdout: bool, hide_stderr: bool) -> Action {
    Action::Command {
        command: CommandType::Single(line.to_string()),
        sudo: None,
        hide_stdout: Some(hide_stdout),
        hide_stderr: Some(hide_stderr),
        remote: None,
        loop_config: Some(LoopConfig { times, delay }),
    }
}

fn remote_command(line: &str, password: &str) -> Action {
    Action::Command {
        command: CommandType::Single(line.to_string()),
        sudo: None,
        hide_stdout: None,
        hide_stderr: None,
        remote: Some(RemoteConfig {
            host: "example.org".to_string(),
            port: None,
            user: "alice".to_string(),
            password: Some(password.to_string()),
        }),
        loop_config: None,
    }
}

fn stage(name: &str, actions: Vec<Action>) -> Stage {
    Stage { name: name.to_string(), actions }
}

fn engine(stages: Vec<Stage>) -> App {
    let config = Config { stages };
    assert_eq!(Config::validate_config(&config), Ok(()));
    App::new(config)
}

fn texts(app: &App) -> Vec<String> {
    app.buffer().iter().map(|segment| segment.text.clone()).collect()
}

fn position(app: &App) -> (usize, usize, bool) {
    (app.stage_index(), app.action_index(), app.finished())
}

fn advance(app: &mut App) -> Dispatch {
    app.handle_events(Key::Right, &Environment::new(), &me())
}

fn retreat(app: &mut App) {
    let dispatch = app.handle_events(Key::Left, &Environment::new(), &me());
    assert!(matches!(dispatch, Dispatch::Idle));
}

/// Drives the running action to its end, answering every repetition with the
/// given output. Returns the command lines that were handed out and the
/// pauses that were asked for.
fn settle(app: &mut App, stdout: &[u8], stderr: &[u8]) -> (Vec<String>, Vec<u64>) {
    let mut lines = Vec::new();
    let mut pauses = Vec::new();
    let mut steps = 0;
    loop {
        steps += 1;
        assert!(steps < 10000);
        match app.work() {
            WorkerStep::Done => break,
            WorkerStep::Sleep(pause) => pauses.push(pause),
            WorkerStep::Pending => panic!("the engine waits for a report"),
            WorkerStep::Execute(invocation) => {
                match invocation {
                    Invocation::Local { command, .. } => lines.push(command),
                    Invocation::Remote { command } => lines.push(command),
                }
                pauses.push(app.command_finished(stdout.to_vec(), stderr.to_vec()));
            },
        }
    }
    assert_eq!(app.action_status(), ActionStatus::Stopped);
    (lines, pauses)
}

#[test]
fn new_engine_stands_at_the_start_and_shows_the_title() {
    let app = engine(vec![stage("Intro", vec![message("hi")])]);
    assert_eq!(position(&app), (0, 0, false));
    assert_eq!(texts(&app), vec!["### Intro ###"]);
    assert_eq!(app.buffer()[0].style.color, Some("white".to_string()));
    assert_eq!(app.buffer()[0].style.bold, Some(true));
    assert_eq!(app.action_status(), ActionStatus::Stopped);
    assert!(app.running());
    assert_eq!(app.scroll(), 0);
    assert_eq!(app.status(), StatusIndicator::Stopped);
}

#[test]
fn keys_are_decoded() {
    assert_eq!(Input::from_key(Key::Char('q')), Some(Input::Quit));
    assert_eq!(Input::from_key(Key::Char('Q')), Some(Input::Quit));
    assert_eq!(Input::from_key(Key::Char('x')), None);
    assert_eq!(Input::from_key(Key::Left), Some(Input::Retreat));
    assert_eq!(Input::from_key(Key::Right), Some(Input::Advance));
    assert_eq!(Input::from_key(Key::Up), Some(Input::ScrollUp(1)));
    assert_eq!(Input::from_key(Key::PageUp), Some(Input::ScrollUp(10)));
    assert_eq!(Input::from_key(Key::Down), Some(Input::ScrollDown(1)));
    assert_eq!(Input::from_key(Key::PageDown), Some(Input::ScrollDown(10)));
    assert_eq!(Input::from_key(Key::Other), None);
}

#[test]
fn quit_stops_the_engine_and_nothing_else() {
    let mut app = engine(vec![stage("Intro", vec![message("hi")])]);
    let dispatch = app.handle_events(Key::Char('q'), &Environment::new(), &me());
    assert!(matches!(dispatch, Dispatch::Idle));
    assert!(!app.running());
    assert_eq!(position(&app), (0, 0, false));
    assert_eq!(texts(&app), vec!["### Intro ###"]);
}

#[test]
fn unknown_keys_change_nothing() {
    let mut app = engine(vec![stage("Intro", vec![message("hi")])]);
    let dispatch = app.handle_events(Key::Char('x'), &Environment::new(), &me());
    assert!(matches!(dispatch, Dispatch::Idle));
    assert!(app.running());
    assert_eq!(position(&app), (0, 0, false));
    app.tick();
    assert_eq!(texts(&app), vec!["### Intro ###"]);
}

#[test]
fn scrolling_moves_the_offset_and_stops_at_its_ends() {
    let mut app = engine(vec![stage("Intro", vec![message("hi")])]);
    app.handle_events(Key::Down, &Environment::new(), &me());
    assert_eq!(app.scroll(), 0);
    app.handle_events(Key::Up, &Environment::new(), &me());
    assert_eq!(app.scroll(), 1);
    app.handle_events(Key::PageUp, &Environment::new(), &me());
    assert_eq!(app.scroll(), 11);
    app.handle_events(Key::Down, &Environment::new(), &me());
    assert_eq!(app.scroll(), 10);
    app.handle_events(Key::PageDown, &Environment::new(), &me());
    assert_eq!(app.scroll(), 0);
    app.apply(Input::ScrollUp(65000), &Environment::new(), &me());
    app.apply(Input::ScrollUp(65000), &Environment::new(), &me());
    assert_eq!(app.scroll(), u16::MAX);
    app.apply(Input::ScrollDown(65535), &Environment::new(), &me());
    assert_eq!(app.scroll(), 0);
    assert_eq!(position(&app), (0, 0, false));
}

#[test]
fn advance_starts_a_message_with_its_marker() {
    let mut app = engine(vec![stage("Intro", vec![message("hi"), message("there")])]);
    let dispatch = advance(&mut app);
    assert!(matches!(dispatch, Dispatch::Spawn));
    assert_eq!(app.action_status(), ActionStatus::Running);
    assert_eq!(position(&app), (0, 1, false));
    assert_eq!(texts(&app), vec!["### Intro ###", "> "]);
    assert_eq!(app.status(), StatusIndicator::Running);
}

#[test]
fn message_is_typed_one_character_at_a_time() {
    let mut app = engine(vec![stage("Intro", vec![message("héy"), message("x")])]);
    advance(&mut app);
    assert!(matches!(app.work(), WorkerStep::Sleep(50)));
    assert_eq!(texts(&app).last().unwrap(), "> h");
    assert!(matches!(app.work(), WorkerStep::Sleep(50)));
    assert_eq!(texts(&app).last().unwrap(), "> hé");
    assert!(matches!(app.work(), WorkerStep::Sleep(50)));
    assert_eq!(texts(&app).last().unwrap(), "> héy");
    assert_eq!(app.action_status(), ActionStatus::Running);
    assert!(matches!(app.work(), WorkerStep::Done));
    assert_eq!(app.action_status(), ActionStatus::Stopped);
    assert_eq!(texts(&app), vec!["### Intro ###", "> héy"]);
    assert!(matches!(app.work(), WorkerStep::Done));
    assert_eq!(texts(&app), vec!["### Intro ###", "> héy"]);
}

#[test]
fn message_uses_its_own_speed_and_style() {
    let styled = Action::Message {
        text: "ab".to_string(),
        style: Some(StyleConfig { color: Some("green".to_string()), bold: None, italic: Some(true) }),
        speed: Some(7),
    };
    let mut app = engine(vec![stage("Intro", vec![styled])]);
    advance(&mut app);
    assert_eq!(app.buffer()[1].style.color, Some("green".to_string()));
    assert_eq!(app.buffer()[1].style.italic, Some(true));
    assert!(matches!(app.work(), WorkerStep::Sleep(7)));
    let (_, pauses) = settle(&mut app, b"", b"");
    assert_eq!(pauses, vec![7]);
}

#[test]
fn empty_message_is_over_at_once() {
    let mut app = engine(vec![stage("Intro", vec![message(""), message("x")])]);
    advance(&mut app);
    assert_eq!(app.action_status(), ActionStatus::Running);
    assert!(matches!(app.work(), WorkerStep::Done));
    assert_eq!(texts(&app), vec!["### Intro ###", "> "]);
}

#[test]
fn message_completeness_without_interrupt() {
    let mut app = engine(vec![stage("Intro", vec![message("hello, wörld"), message("x")])]);
    advance(&mut app);
    settle(&mut app, b"", b"");
    assert_eq!(texts(&app).last().unwrap(), "> hello, wörld");
}

#[test]
fn message_completeness_whenever_it_is_interrupted() {
    let text = "hello, wörld";
    for typed in 0..=text.chars().count() {
        let mut app = engine(vec![stage("Intro", vec![message(text), message("x")])]);
        advance(&mut app);
        for _ in 0..typed {
            app.work();
        }
        advance(&mut app);
        settle(&mut app, b"", b"");
        assert_eq!(texts(&app), vec!["### Intro ###".to_string(), "> hello, wörld".to_string()]);
        assert_eq!(position(&app), (0, 1, false));
    }
}

#[test]
fn interrupted_message_is_completed_in_one_step() {
    let mut app = engine(vec![stage("Intro", vec![message("abcdef"), message("x")])]);
    advance(&mut app);
    app.work();
    app.work();
    advance(&mut app);
    assert_eq!(app.status(), StatusIndicator::Stopping);
    assert!(matches!(app.work(), WorkerStep::Done));
    assert_eq!(texts(&app).last().unwrap(), "> abcdef");
    assert_eq!(app.action_status(), ActionStatus::Stopped);
}

#[test]
fn interrupt_is_idempotent() {
    let mut app = engine(vec![stage("Intro", vec![message("abc"), message("def")])]);
    advance(&mut app);
    app.work();
    let before = (position(&app), texts(&app));
    for _ in 0..5 {
        let dispatch = advance(&mut app);
        assert!(matches!(dispatch, Dispatch::Idle));
        assert_eq!(app.action_status(), ActionStatus::Forced);
        assert_eq!((position(&app), texts(&app)), before);
    }
    settle(&mut app, b"", b"");
    assert_eq!(texts(&app), vec!["### Intro ###", "> abc"]);
}

#[test]
fn retreat_does_nothing_while_an_action_runs() {
    let mut app = engine(vec![stage("Intro", vec![message("abc"), message("def")])]);
    advance(&mut app);
    retreat(&mut app);
    assert_eq!(position(&app), (0, 1, false));
    assert_eq!(texts(&app), vec!["### Intro ###", "> "]);
    advance(&mut app);
    retreat(&mut app);
    assert_eq!(app.action_status(), ActionStatus::Forced);
    assert_eq!(position(&app), (0, 1, false));
}

#[test]
fn retreat_at_the_very_start_does_nothing() {
    let mut app = engine(vec![stage("Intro", vec![message("abc")])]);
    retreat(&mut app);
    assert_eq!(position(&app), (0, 0, false));
    assert_eq!(texts(&app), vec!["### Intro ###"]);
}

#[test]
fn retreat_undoes_advance_within_a_stage() {
    let mut app = engine(vec![stage("Intro", vec![message("a"), message("b"), message("c")])]);
    advance(&mut app);
    settle(&mut app, b"", b"");
    let before = (position(&app), texts(&app));
    advance(&mut app);
    settle(&mut app, b"", b"");
    assert_eq!(position(&app), (0, 2, false));
    assert_eq!(texts(&app).len(), 3);
    retreat(&mut app);
    assert_eq!((position(&app), texts(&app)), before);
}

#[test]
fn retreat_undoes_the_last_advance_of_the_script() {
    let mut app = engine(vec![stage("Intro", vec![message("a"), message("b")])]);
    advance(&mut app);
    settle(&mut app, b"", b"");
    let before = (position(&app), texts(&app));
    advance(&mut app);
    settle(&mut app, b"", b"");
    assert_eq!(position(&app), (0, 2, true));
    assert_eq!(app.status(), StatusIndicator::Finished);
    retreat(&mut app);
    assert_eq!((position(&app), texts(&app)), before);
    assert_eq!(app.status(), StatusIndicator::Stopped);
}

#[test]
fn retreat_undoes_a_hidden_command_that_ran_once() {
    let mut app = engine(vec![stage(
        "Intro",
        vec![repeated("make", 1, None, true, true), message("b")],
    )]);
    let before = (position(&app), texts(&app));
    advance(&mut app);
    settle(&mut app, b"built\n", b"warning\n");
    assert_eq!(texts(&app), vec!["### Intro ###", "[demo@box]$ make\n"]);
    retreat(&mut app);
    assert_eq!((position(&app), texts(&app)), before);
}

#[test]
fn retreat_after_crossing_into_a_stage_goes_to_the_start_of_the_stage_before() {
    let mut app = engine(vec![
        stage("One", vec![message("a"), message("b")]),
        stage("Two", vec![message("c")]),
    ]);
    advance(&mut app);
    settle(&mut app, b"", b"");
    advance(&mut app);
    settle(&mut app, b"", b"");
    assert_eq!(position(&app), (1, 0, false));
    assert_eq!(texts(&app), vec!["### One ###", "> a", "> b"]);
    retreat(&mut app);
    assert_eq!(position(&app), (0, 0, false));
    assert_eq!(texts(&app), vec!["### One ###"]);
}

#[test]
fn the_title_of_a_later_stage_is_written_when_its_first_action_begins() {
    let mut app = engine(vec![
        stage("One", vec![message("a")]),
        stage("Two", vec![message("b"), message("c")]),
    ]);
    advance(&mut app);
    settle(&mut app, b"", b"");
    assert_eq!(position(&app), (1, 0, false));
    assert_eq!(texts(&app), vec!["### One ###", "> a"]);
    advance(&mut app);
    assert_eq!(texts(&app), vec!["### Two ###", "> "]);
    settle(&mut app, b"", b"");
    assert_eq!(texts(&app), vec!["### Two ###", "> b"]);
    assert_eq!(position(&app), (1, 1, false));
    retreat(&mut app);
    assert_eq!(position(&app), (1, 0, false));
    assert_eq!(texts(&app), vec!["### Two ###"]);
}

#[test]
fn advance_on_a_finished_engine_does_nothing() {
    let mut app = engine(vec![stage("Intro", vec![message("a")])]);
    advance(&mut app);
    assert_eq!(position(&app), (0, 1, true));
    assert_eq!(app.status(), StatusIndicator::Running);
    settle(&mut app, b"", b"");
    let before = (position(&app), texts(&app));
    let dispatch = advance(&mut app);
    assert!(matches!(dispatch, Dispatch::Idle));
    assert_eq!(app.action_status(), ActionStatus::Stopped);
    assert_eq!((position(&app), texts(&app)), before);
}

#[test]
fn navigation_stays_within_the_script() {
    let stages = vec![
        stage("One", vec![message("a"), command("ls")]),
        stage("Two", vec![command("pwd")]),
        stage("Three", vec![message("b"), message("c"), message("d")]),
    ];
    let sizes = [2usize, 1, 3];
    let mut app = engine(stages);
    let mut seed: u32 = 12345;
    for _ in 0..400 {
        seed = seed.wrapping_mul(1103515245).wrapping_add(12345);
        match (seed >> 16) % 4 {
            0 => {
                retreat(&mut app);
            },
            1 => {
                app.work();
            },
            2 => {
                app.command_finished(b"x\n".to_vec(), Vec::new());
            },
            _ => {
                advance(&mut app);
            },
        }
        let (stage_index, action_index, finished) = position(&app);
        assert!(stage_index < sizes.len());
        if finished {
            assert_eq!(stage_index, sizes.len() - 1);
            assert_eq!(action_index, sizes[stage_index]);
        } else {
            assert!(action_index < sizes[stage_index]);
        }
        assert!(app.buffer().len() > action_index);
    }
}

#[test]
fn command_header_shows_prompt_and_command() {
    let mut app = engine(vec![stage("Intro", vec![command("echo hi"), message("x")])]);
    let dispatch = advance(&mut app);
    assert!(matches!(dispatch, Dispatch::Spawn));
    assert_eq!(app.action_status(), ActionStatus::Running);
    assert_eq!(position(&app), (0, 1, false));
    assert_eq!(texts(&app), vec!["### Intro ###", "[demo@box]$ echo hi\n"]);
    assert_eq!(app.buffer()[1].style.color, None);
}

#[test]
fn command_output_is_added_to_the_header_segment() {
    let mut app = engine(vec![stage("Intro", vec![command("echo hi"), message("x")])]);
    advance(&mut app);
    let (lines, pauses) = settle(&mut app, b"hi\n", b"oops\n");
    assert_eq!(lines, vec!["echo hi"]);
    assert_eq!(pauses, vec![0]);
    assert_eq!(texts(&app), vec!["### Intro ###", "[demo@box]$ echo hi\nhi\noops\n"]);
}

#[test]
fn several_commands_run_as_one_line() {
    let several = Action::Command {
        command: CommandType::Multiple(vec!["cd /tmp".to_string(), "ls".to_string()]),
        sudo: None,
        hide_stdout: None,
        hide_stderr: None,
        remote: None,
        loop_config: None,
    };
    let mut app = engine(vec![stage("Intro", vec![several])]);
    advance(&mut app);
    let (lines, _) = settle(&mut app, b"", b"");
    assert_eq!(lines, vec!["cd /tmp && ls"]);
    assert_eq!(texts(&app).last().unwrap(), "[demo@box]$ cd /tmp && ls\n");
}

#[test]
fn sudo_command_is_rewritten_and_prompted_with_a_hash() {
    let elevated = Action::Command {
        command: CommandType::Single("id".to_string()),
        sudo: Some(SudoConfig { user: None, password: Some("$env:TEST_PW".to_string()) }),
        hide_stdout: None,
        hide_stderr: None,
        remote: None,
        loop_config: None,
    };
    let mut app = engine(vec![stage("Intro", vec![elevated])]);
    let mut env = Environment::new();
    env.set("TEST_PW".to_string(), "secret".to_string());
    let dispatch = app.handle_events(Key::Right, &env, &me());
    assert!(matches!(dispatch, Dispatch::Spawn));
    assert_eq!(texts(&app).last().unwrap(), "[root@box]# id\n");
    let (lines, _) = settle(&mut app, b"", b"");
    assert_eq!(lines, vec!["echo secret | sudo -kS -u root -p '' id"]);
}

#[test]
fn missing_secret_is_reported_inline_and_nothing_runs() {
    let elevated = Action::Command {
        command: CommandType::Single("id".to_string()),
        sudo: Some(SudoConfig { user: None, password: Some("$env:TEST_PW".to_string()) }),
        hide_stdout: None,
        hide_stderr: None,
        remote: None,
        loop_config: None,
    };
    let mut app = engine(vec![stage("Intro", vec![elevated, message("next")])]);
    let dispatch = advance(&mut app);
    assert!(matches!(dispatch, Dispatch::Idle));
    assert_eq!(app.action_status(), ActionStatus::Stopped);
    assert_eq!(position(&app), (0, 1, false));
    assert_eq!(
        texts(&app).last().unwrap(),
        "Failed to initialize a new session.\n\tCommand: id\n\tError:   Missing environment variable: 'TEST_PW'"
    );
    assert_eq!(app.buffer()[1].style.color, Some("red".to_string()));
    assert!(matches!(app.work(), WorkerStep::Done));
    let dispatch = advance(&mut app);
    assert!(matches!(dispatch, Dispatch::Spawn));
    assert_eq!(texts(&app).last().unwrap(), "> ");
}

#[test]
fn missing_remote_secret_asks_for_no_connection() {
    let mut app = engine(vec![stage("Intro", vec![remote_command("uptime", "$env:TEST_PW")])]);
    let dispatch = advance(&mut app);
    assert!(matches!(dispatch, Dispatch::Idle));
    assert_eq!(app.action_status(), ActionStatus::Stopped);
    assert!(texts(&app).last().unwrap().ends_with("Missing environment variable: 'TEST_PW'"));
}

#[test]
fn loop_count_appends_the_output_of_every_repetition() {
    let mut app = engine(vec![stage(
        "Intro",
        vec![repeated("echo X", 3, Some(0), false, false), message("x")],
    )]);
    advance(&mut app);
    let (lines, pauses) = settle(&mut app, b"X\n", b"");
    assert_eq!(lines, vec!["echo X", "echo X", "echo X"]);
    assert_eq!(pauses, vec![0, 0, 0]);
    assert_eq!(texts(&app), vec!["### Intro ###", "[demo@box]$ echo X\nX\nX\nX\n"]);
}

#[test]
fn loop_pauses_between_repetitions_but_not_after_the_last() {
    let mut app = engine(vec![stage(
        "Intro",
        vec![repeated("date", 3, Some(250), false, false)],
    )]);
    advance(&mut app);
    let (lines, pauses) = settle(&mut app, b"now\n", b"");
    assert_eq!(lines.len(), 3);
    assert_eq!(pauses, vec![250, 250, 0]);
}

#[test]
fn loop_without_a_delay_does_not_pause() {
    let mut app = engine(vec![stage("Intro", vec![repeated("date", 2, None, false, false)])]);
    advance(&mut app);
    let (_, pauses) = settle(&mut app, b"now\n", b"");
    assert_eq!(pauses, vec![0, 0]);
}

#[test]
fn loop_of_no_repetitions_runs_nothing() {
    let mut app = engine(vec![stage(
        "Intro",
        vec![repeated("rm -rf /", 0, Some(10), false, false), message("x")],
    )]);
    let dispatch = advance(&mut app);
    assert!(matches!(dispatch, Dispatch::Spawn));
    assert!(matches!(app.work(), WorkerStep::Done));
    assert_eq!(app.action_status(), ActionStatus::Stopped);
    assert_eq!(texts(&app), vec!["### Intro ###", "[demo@box]$ rm -rf /\n"]);
    assert_eq!(position(&app), (0, 1, false));
}

#[test]
fn hide_flags_hide_only_what_they_name() {
    let mut app = engine(vec![stage("Intro", vec![repeated("make", 1, None, true, false)])]);
    advance(&mut app);
    let (lines, _) = settle(&mut app, b"built\n", b"warning\n");
    assert_eq!(lines, vec!["make"]);
    assert_eq!(texts(&app).last().unwrap(), "[demo@box]$ make\nwarning\n");

    let mut app = engine(vec![stage("Intro", vec![repeated("make", 1, None, false, true)])]);
    advance(&mut app);
    settle(&mut app, b"built\n", b"warning\n");
    assert_eq!(texts(&app).last().unwrap(), "[demo@box]$ make\nbuilt\n");
}

#[test]
fn empty_output_adds_nothing() {
    let mut app = engine(vec![stage("Intro", vec![repeated("true", 2, None, false, false)])]);
    advance(&mut app);
    settle(&mut app, b"", b"");
    assert_eq!(texts(&app), vec!["### Intro ###", "[demo@box]$ true\n"]);
}

#[test]
fn output_that_is_not_text_is_shown_with_replacement_characters() {
    let mut app = engine(vec![stage("Intro", vec![command("cat blob")])]);
    advance(&mut app);
    settle(&mut app, &[b'a', 0xFF, b'\n'], b"");
    assert_eq!(texts(&app).last().unwrap(), "[demo@box]$ cat blob\na\u{FFFD}\n");
}

#[test]
fn interrupted_command_skips_the_repetitions_that_are_left() {
    let mut app = engine(vec![stage(
        "Intro",
        vec![repeated("date", 5, Some(100), false, false), message("x")],
    )]);
    advance(&mut app);
    assert!(matches!(app.work(), WorkerStep::Execute(_)));
    assert_eq!(app.command_finished(b"one\n".to_vec(), Vec::new()), 100);
    assert!(matches!(advance(&mut app), Dispatch::Idle));
    assert_eq!(app.action_status(), ActionStatus::Forced);
    assert!(matches!(app.work(), WorkerStep::Done));
    assert_eq!(app.action_status(), ActionStatus::Stopped);
    assert_eq!(texts(&app).last().unwrap(), "[demo@box]$ date\none\nCommand interrupted!\n");
}

#[test]
fn interrupt_does_not_cut_the_repetition_that_is_running() {
    let mut app = engine(vec![stage("Intro", vec![repeated("date", 2, None, false, false)])]);
    advance(&mut app);
    assert!(matches!(app.work(), WorkerStep::Execute(_)));
    advance(&mut app);
    assert!(matches!(app.work(), WorkerStep::Pending));
    assert_eq!(app.action_status(), ActionStatus::Forced);
    app.command_finished(b"one\n".to_vec(), Vec::new());
    assert!(matches!(app.work(), WorkerStep::Done));
    assert_eq!(texts(&app).last().unwrap(), "[demo@box]$ date\none\nCommand interrupted!\n");
}

#[test]
fn interrupt_notice_is_hidden_with_standard_output() {
    let mut app = engine(vec![stage("Intro", vec![repeated("date", 3, None, true, false)])]);
    advance(&mut app);
    advance(&mut app);
    assert!(matches!(app.work(), WorkerStep::Done));
    assert_eq!(texts(&app).last().unwrap(), "[demo@box]$ date\n");
}

#[test]
fn interrupt_after_the_last_repetition_shows_no_notice() {
    let mut app = engine(vec![stage("Intro", vec![repeated("date", 1, None, false, false)])]);
    advance(&mut app);
    assert!(matches!(app.work(), WorkerStep::Execute(_)));
    app.command_finished(b"one\n".to_vec(), Vec::new());
    advance(&mut app);
    assert!(matches!(app.work(), WorkerStep::Done));
    assert_eq!(texts(&app).last().unwrap(), "[demo@box]$ date\none\n");
}

#[test]
fn failed_repetition_is_shown_and_the_loop_goes_on() {
    let mut app = engine(vec![stage("Intro", vec![repeated("date", 2, Some(5), true, true)])]);
    advance(&mut app);
    assert!(matches!(app.work(), WorkerStep::Execute(_)));
    assert_eq!(app.command_failed(ExecutionError { reason: "no such shell".to_string() }), 5);
    assert_eq!(texts(&app).last().unwrap(), "[demo@box]$ date\nCommand failed: no such shell\n");
    assert_eq!(app.action_status(), ActionStatus::Running);
    assert!(matches!(app.work(), WorkerStep::Execute(_)));
    assert_eq!(app.command_finished(b"x".to_vec(), Vec::new()), 0);
    assert!(matches!(app.work(), WorkerStep::Done));
    assert_eq!(app.action_status(), ActionStatus::Stopped);
}

#[test]
fn reports_that_nothing_waits_for_are_ignored() {
    let mut app = engine(vec![stage("Intro", vec![message("abc"), command("ls")])]);
    assert_eq!(app.command_finished(b"x".to_vec(), Vec::new()), 0);
    assert_eq!(app.command_failed(ExecutionError { reason: "x".to_string() }), 0);
    assert!(matches!(app.session_connected(Ok(())), Dispatch::Idle));
    assert_eq!(texts(&app), vec!["### Intro ###"]);
    advance(&mut app);
    app.work();
    assert_eq!(app.command_finished(b"x".to_vec(), Vec::new()), 0);
    assert!(matches!(
        app.session_connected(Err(SessionError::ConnectionFailed("x".to_string()))),
        Dispatch::Idle
    ));
    assert_eq!(texts(&app), vec!["### Intro ###", "> a"]);
    assert_eq!(app.action_status(), ActionStatus::Running);
}

#[test]
fn remote_command_asks_for_the_connection_first() {
    let mut app = engine(vec![stage("Intro", vec![remote_command("uptime", "$env:PW"), message("x")])]);
    let mut env = Environment::new();
    env.set("PW".to_string(), "secret".to_string());
    match app.handle_events(Key::Right, &env, &me()) {
        Dispatch::Connect(remote) => {
            assert_eq!(remote.host, "example.org");
            assert_eq!(remote.user, "alice");
            assert_eq!(remote.password, Some("secret".to_string()));
            assert_eq!(remote.effective_port(), 22);
        },
        other => panic!("{:?}", other),
    }
    assert_eq!(app.action_status(), ActionStatus::Running);
    assert_eq!(position(&app), (0, 0, false));
    assert_eq!(texts(&app), vec!["### Intro ###"]);
    assert!(matches!(app.work(), WorkerStep::Pending));
    assert!(matches!(app.session_connected(Ok(())), Dispatch::Spawn));
    assert_eq!(position(&app), (0, 1, false));
    assert_eq!(texts(&app), vec!["### Intro ###", "[alice@example.org:22]$ uptime\n"]);
    match app.work() {
        WorkerStep::Execute(Invocation::Remote { command }) => assert_eq!(command, "uptime"),
        other => panic!("{:?}", other),
    }
    app.command_finished(b"up 1 day\n".to_vec(), Vec::new());
    assert!(matches!(app.work(), WorkerStep::Done));
    assert_eq!(texts(&app).last().unwrap(), "[alice@example.org:22]$ uptime\nup 1 day\n");
}

#[test]
fn failed_connection_is_reported_inline_and_the_engine_goes_on() {
    let mut app = engine(vec![stage("Intro", vec![remote_command("uptime", "pw"), message("x")])]);
    assert!(matches!(advance(&mut app), Dispatch::Connect(_)));
    let outcome = Err(SessionError::AuthenticationFailed("wrong password".to_string()));
    assert!(matches!(app.session_connected(outcome), Dispatch::Idle));
    assert_eq!(app.action_status(), ActionStatus::Stopped);
    assert_eq!(position(&app), (0, 1, false));
    assert_eq!(
        texts(&app).last().unwrap(),
        "Failed to initialize a new session.\n\tCommand: uptime\n\tError:   Authentication failed: wrong password"
    );
    assert!(matches!(advance(&mut app), Dispatch::Spawn));
    retreat(&mut app);
    assert_eq!(app.action_status(), ActionStatus::Running);
}

#[test]
fn unreachable_host_is_reported_as_a_failed_connection() {
    let mut app = engine(vec![stage("Intro", vec![remote_command("uptime", "pw")])]);
    assert!(matches!(advance(&mut app), Dispatch::Connect(_)));
    let outcome = Err(SessionError::ConnectionFailed("no route to host".to_string()));
    assert!(matches!(app.session_connected(outcome), Dispatch::Idle));
    assert!(texts(&app).last().unwrap().ends_with("Error:   Connection failed: no route to host"));
    assert_eq!(position(&app), (0, 1, true));
}

#[test]
fn status_line_labels() {
    assert_eq!(StatusIndicator::Finished.label(), " [ Finished ] ");
    assert_eq!(StatusIndicator::Running.label(), " \u{25c4} Running... \u{25b6} ");
    assert_eq!(StatusIndicator::Stopping.label(), " \u{25a0} Stopping... \u{25a0} ");
    assert_eq!(StatusIndicator::Stopped.label(), " \u{25a0} Stopped \u{25a0} ");
}

#[test]
fn status_shows_finished_once_the_last_action_is_asked_to_stop() {
    let mut app = engine(vec![stage("Intro", vec![message("abc")])]);
    advance(&mut app);
    assert_eq!(app.status(), StatusIndicator::Running);
    advance(&mut app);
    assert_eq!(app.status(), StatusIndicator::Finished);
    settle(&mut app, b"", b"");
    assert_eq!(app.status(), StatusIndicator::Finished);
}

#[test]
fn force_stop_is_true_of_forced_alone() {
    assert!(ActionStatus::Forced.force_stop());
    assert!(!ActionStatus::Running.force_stop());
    assert!(!ActionStatus::Stopped.force_stop());
    assert_eq!(ActionStatus::default(), ActionStatus::Stopped);
}
