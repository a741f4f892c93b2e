//! The engine: it holds the script, the position in it, the output buffer and
//! the execution status, takes the operator's inputs, and tells its caller
//! what to run.
//!
//! The engine never waits and never runs anything itself. An input may start
//! an action; the caller then drives the action by asking `work` for the next
//! step, doing what the step says, and reporting back.
//!
//! A caller that shares the engine between the thread that takes the inputs
//! and the worker that drives an action keeps it behind one lock and holds the
//! lock for one call at a time. Every call is then one critical section: the
//! worker reads the status and acts on it without the operator getting in
//! between.

use crate::config::{
    opt_remote, opt_sudo, playable, Action, Config, LoopConfig, RemoteConfig, StyleConfig,
    SudoConfig,
};
use crate::laws::{
    lemma_command_failed_wf, lemma_command_finished_wf, lemma_initial_wf, lemma_message_complete,
    lemma_next_action_wf, lemma_prev_action_wf, lemma_session_connected_wf, lemma_work_wf,
};
use crate::model::{
    decode, error_segment, prompt_marker, ActionStatus, AppView, DispatchView, Input, JobView, Key,
    Phase, Segment, StatusIndicator, StepView, WorkerView,
};
use crate::session::{
    CommandSession, Environment, ExecutionError, Invocation, LocalIdentity, SessionError,
    SessionFault, SessionView, Target,
};
use crate::text::tail_from;
use vstd::prelude::*;
use vstd::string::*;

verus! {

/// One piece of output: a text and how it is to look.
#[derive(Debug)]
pub struct BufferedOutput {
    pub text: String,
    pub style: StyleConfig,
}

impl View for BufferedOutput {
    type V = Segment;

    open spec fn view(&self) -> Segment {
        Segment { text: self.text@, style: self.style@ }
    }
}

impl Clone for BufferedOutput {
    fn clone(&self) -> (copy: Self)
        ensures
            copy@ == self@,
    {
        BufferedOutput { text: self.text.clone(), style: self.style.clone() }
    }
}

/// What a buffer holds.
pub open spec fn segments(buffer: Seq<BufferedOutput>) -> Seq<Segment> {
    Seq::new(buffer.len(), |i: int| buffer[i]@)
}

/// The fault in the report of a connection, if it reports one.
pub open spec fn fault_of(outcome: Result<(), SessionError>) -> Option<SessionFault> {
    match outcome {
        Ok(_) => None,
        Err(error) => Some(error@),
    }
}

/// What the caller has to do after an input.
#[derive(Debug)]
pub enum Dispatch {
    /// Nothing.
    Idle,
    /// Open the connection to this host, log in, and report the outcome with
    /// `session_connected`.
    Connect(RemoteConfig),
    /// Start a worker that drives the action with `work`.
    Spawn,
}

impl View for Dispatch {
    type V = DispatchView;

    open spec fn view(&self) -> DispatchView {
        match self {
            Dispatch::Idle => DispatchView::Idle,
            Dispatch::Connect(remote) => DispatchView::Connect(remote@),
            Dispatch::Spawn => DispatchView::Spawn,
        }
    }
}

/// What a worker has to do next.
#[derive(Debug)]
pub enum WorkerStep {
    /// Wait so many milliseconds, then ask again.
    Sleep(u64),
    /// Run this, and report with `command_finished` or `command_failed`.
    Execute(Invocation),
    /// Nothing: the engine waits for a report.
    Pending,
    /// Nothing more: the action is over.
    Done,
}

impl View for WorkerStep {
    type V = StepView;

    open spec fn view(&self) -> StepView {
        match self {
            WorkerStep::Sleep(pause) => StepView::Sleep(*pause),
            WorkerStep::Execute(invocation) => StepView::Execute(invocation@),
            WorkerStep::Pending => StepView::Pending,
            WorkerStep::Done => StepView::Done,
        }
    }
}

impl StatusIndicator {
    /// The text of the status line.
    pub fn label(&self) -> (label: &'static str)
        ensures
            label@ == match self {
                StatusIndicator::Finished => " [ Finished ] "@,
                StatusIndicator::Running => " ◄ Running... ▶ "@,
                StatusIndicator::Stopping => " ■ Stopping... ■ "@,
                StatusIndicator::Stopped => " ■ Stopped ■ "@,
            },
    {
        match self {
            StatusIndicator::Finished => " [ Finished ] ",
            StatusIndicator::Running => " ◄ Running... ▶ ",
            StatusIndicator::Stopping => " ■ Stopping... ■ ",
            StatusIndicator::Stopped => " ■ Stopped ■ ",
        }
    }
}

impl Input {
    /// What a key asks for.
    pub fn from_key(key: Key) -> (input: Option<Input>)
        ensures
            input == decode(key),
    {
        match key {
            Key::Char(c) => if c == 'q' || c == 'Q' {
                Some(Input::Quit)
            } else {
                None
            },
            Key::Left => Some(Input::Retreat),
            Key::Right => Some(Input::Advance),
            Key::Up => Some(Input::ScrollUp(1)),
            Key::PageUp => Some(Input::ScrollUp(10)),
            Key::Down => Some(Input::ScrollDown(1)),
            Key::PageDown => Some(Input::ScrollDown(10)),
            Key::Other => None,
        }
    }
}

struct CommandJob {
    session: CommandSession,
    command: String,
    hide_stdout: bool,
    hide_stderr: bool,
    times: u32,
    delay: u64,
}

impl View for CommandJob {
    type V = JobView;

    closed spec fn view(&self) -> JobView {
        JobView {
            session: self.session@,
            command: self.command@,
            hide_stdout: self.hide_stdout,
            hide_stderr: self.hide_stderr,
            times: self.times,
            delay: self.delay,
        }
    }
}

enum Worker {
    Idle,
    Typing { text: String, typed: usize, speed: u64 },
    Command { job: CommandJob, phase: Phase, done: u32 },
}

impl View for Worker {
    type V = WorkerView;

    closed spec fn view(&self) -> WorkerView {
        match self {
            Worker::Idle => WorkerView::Idle,
            Worker::Typing { text, typed, speed } => WorkerView::Typing {
                text: text@,
                typed: *typed as nat,
                speed: *speed,
            },
            Worker::Command { job, phase, done } => WorkerView::Command {
                job: job@,
                phase: *phase,
                done: *done,
            },
        }
    }
}

/// The engine.
pub struct App {
    running: bool,
    config: Config,
    buffer: Vec<BufferedOutput>,
    stage_idx: usize,
    action_idx: usize,
    action_status: ActionStatus,
    scroll: u16,
    finished: bool,
    worker: Worker,
}

impl View for App {
    type V = AppView;

    closed spec fn view(&self) -> AppView {
        AppView {
            running: self.running,
            stages: self.config@,
            buffer: segments(self.buffer@),
            stage_idx: self.stage_idx as nat,
            action_idx: self.action_idx as nat,
            finished: self.finished,
            status: self.action_status,
            scroll: self.scroll,
            worker: self.worker@,
        }
    }
}

impl App {
    /// What holds of every engine: the position is within the script, the
    /// buffer holds at least the segments of the actions gone through, and the
    /// running action fits the status.
    pub open spec fn wf(&self) -> bool {
        self@.wf()
    }

    /// An engine at the start of a script.
    pub fn new(config: Config) -> (app: Self)
        requires
            playable(config@),
        ensures
            app@ == AppView::initial(config@),
            app.wf(),
    {
        let mut app = Self {
            running: true,
            config,
            buffer: Vec::new(),
            stage_idx: 0,
            action_idx: 0,
            action_status: ActionStatus::default(),
            scroll: 0,
            finished: false,
            worker: Worker::Idle,
        };
        app.write_title();
        proof {
            lemma_initial_wf(config@);
        }
        app
    }

    /// Whether the operator has not left yet.
    pub fn running(&self) -> (running: bool)
        ensures
            running == self@.running,
    {
        self.running
    }

    /// The output so far.
    pub fn buffer(&self) -> (buffer: &Vec<BufferedOutput>)
        ensures
            segments(buffer@) == self@.buffer,
    {
        &self.buffer
    }

    /// How far the view is scrolled up.
    pub fn scroll(&self) -> (scroll: u16)
        ensures
            scroll == self@.scroll,
    {
        self.scroll
    }

    /// Whether the last action of the script has begun.
    pub fn finished(&self) -> (finished: bool)
        ensures
            finished == self@.finished,
    {
        self.finished
    }

    /// The stage of the position.
    pub fn stage_index(&self) -> (index: usize)
        ensures
            index == self@.stage_idx,
    {
        self.stage_idx
    }

    /// The action of the position within its stage.
    pub fn action_index(&self) -> (index: usize)
        ensures
            index == self@.action_idx,
    {
        self.action_idx
    }

    /// Whether an action runs.
    pub fn action_status(&self) -> (status: ActionStatus)
        ensures
            status == self@.status,
    {
        self.action_status
    }

    /// What the status line shows: whether an action runs, is stopping or has
    /// stopped, and, in place of the last two, that the script is finished
    /// once it is.
    pub fn status(&self) -> (indicator: StatusIndicator)
        ensures
            indicator == self@.indicator(),
    {
        match self.action_status {
            ActionStatus::Running => StatusIndicator::Running,
            ActionStatus::Forced => if self.finished {
                StatusIndicator::Finished
            } else {
                StatusIndicator::Stopping
            },
            ActionStatus::Stopped => if self.finished {
                StatusIndicator::Finished
            } else {
                StatusIndicator::Stopped
            },
        }
    }

    fn write_title(&mut self)
        requires
            old(self)@.stage_idx < old(self)@.stages.len(),
        ensures
            final(self)@ == old(self)@.with_title(),
    {
        let mut text = String::from_str("### ");
        text.append(self.config.stages[self.stage_idx].name.as_str());
        text.append(" ###");
        self.buffer.clear();
        self.buffer.push(BufferedOutput { text, style: StyleConfig::title() });
        proof {
            assert(final(self)@.buffer =~= old(self)@.with_title().buffer);
        }
    }

    /// Takes a key of the operator.
    pub fn handle_events(&mut self, key: Key, env: &Environment, me: &LocalIdentity) -> (dispatch:
        Dispatch)
        requires
            old(self).wf(),
        ensures
            final(self).wf(),
            final(self)@ == old(self)@.handle(key, env@, me@),
            dispatch@ == old(self)@.handle_dispatch(key, env@, me@),
    {
        match Input::from_key(key) {
            Some(input) => self.apply(input, env, me),
            None => Dispatch::Idle,
        }
    }

    /// Takes an input of the operator.
    pub fn apply(&mut self, input: Input, env: &Environment, me: &LocalIdentity) -> (dispatch:
        Dispatch)
        requires
            old(self).wf(),
        ensures
            final(self).wf(),
            final(self)@ == old(self)@.apply(input, env@, me@),
            dispatch@ == old(self)@.apply_dispatch(input, env@, me@),
    {
        match input {
            Input::Quit => {
                self.exit();
                Dispatch::Idle
            },
            Input::Retreat => {
                self.prev_action();
                Dispatch::Idle
            },
            Input::Advance => self.next_action(env, me),
            Input::ScrollUp(lines) => {
                self.scroll_up(lines);
                Dispatch::Idle
            },
            Input::ScrollDown(lines) => {
                self.scroll_down(lines);
                Dispatch::Idle
            },
        }
    }

    fn scroll_up(&mut self, value: u16)
        ensures
            final(self)@ == old(self)@.scroll_up(value),
    {
        self.scroll = self.scroll.saturating_add(value);
    }

    fn scroll_down(&mut self, value: u16)
        ensures
            final(self)@ == old(self)@.scroll_down(value),
    {
        self.scroll = self.scroll.saturating_sub(value);
    }

    /// Takes note that time has passed. The engine keeps no time.
    pub fn tick(&self) {
    }

    fn next_action_idx(&mut self)
        requires
            playable(old(self)@.stages),
            old(self)@.in_bounds(),
        ensures
            final(self)@ == old(self)@.advance(),
    {
        if self.finished {
            return ;
        }
        assert(self@.stages[self.stage_idx as int].actions.len()
            == self.config.stages[self.stage_idx as int].actions.len());
        self.action_idx += 1;
        if self.config.stages[self.stage_idx].actions.len() == self.action_idx {
            if self.config.stages.len() == self.stage_idx + 1 {
                self.finished = true;
            } else {
                self.stage_idx += 1;
                self.action_idx = 0;
            }
        }
    }

    fn prev_action(&mut self)
        requires
            old(self).wf(),
        ensures
            final(self).wf(),
            final(self)@ == old(self)@.prev_action(),
    {
        proof {
            lemma_prev_action_wf(self@);
        }
        match self.action_status {
            ActionStatus::Stopped => {},
            _ => {
                return ;
            },
        }
        if self.finished {
            self.finished = false;
        }
        if self.action_idx == 0 {
            if self.stage_idx > 0 {
                self.stage_idx -= 1;
                self.write_title();
            }
            return ;
        }
        self.action_idx -= 1;
        self.buffer.pop();
        proof {
            assert(final(self)@.buffer =~= old(self)@.buffer.drop_last());
        }
    }

    fn next_action(&mut self, env: &Environment, me: &LocalIdentity) -> (dispatch: Dispatch)
        requires
            old(self).wf(),
        ensures
            final(self).wf(),
            final(self)@ == old(self)@.next_action(env@, me@),
            dispatch@ == old(self)@.next_dispatch(env@, me@),
    {
        proof {
            lemma_next_action_wf(self@, env@, me@);
        }
        match self.action_status {
            ActionStatus::Running => {
                self.action_status = ActionStatus::Forced;
                return Dispatch::Idle;
            },
            ActionStatus::Forced => {
                return Dispatch::Idle;
            },
            ActionStatus::Stopped => {},
        }
        if self.finished {
            return Dispatch::Idle;
        }
        if self.action_idx == 0 && self.stage_idx > 0 {
            self.write_title();
        }
        assert(self@ == old(self)@.base());
        assert(self@.current_action()
            == self.config.stages[self.stage_idx as int].actions[self.action_idx as int]@);
        assert(self@.current_action() == old(self)@.current_action());
        let dispatch = match &self.config.stages[self.stage_idx].actions[self.action_idx] {
            Action::Message { text, style, speed } => {
                let text = text.clone();
                let style = StyleConfig::or_plain(style);
                let speed = match speed {
                    Some(speed) => *speed,
                    None => 50,
                };
                self.write_message(text, style, speed);
                Dispatch::Spawn
            },
            Action::Command { command, sudo, hide_stdout, hide_stderr, remote, loop_config } => {
                let line = command.get_command();
                let remote = match remote {
                    Some(remote) => Some(remote.clone()),
                    None => None,
                };
                let sudo = match sudo {
                    Some(sudo) => Some(sudo.clone()),
                    None => None,
                };
                let hide_stdout = match hide_stdout {
                    Some(hide) => *hide,
                    None => false,
                };
                let hide_stderr = match hide_stderr {
                    Some(hide) => *hide,
                    None => false,
                };
                let repeat = match loop_config {
                    Some(repeat) => *repeat,
                    None => LoopConfig { times: 1, delay: Some(0) },
                };
                self.run_command(line, remote, sudo, hide_stdout, hide_stderr, repeat, env, me)
            },
        };
        dispatch
    }

    fn write_message(&mut self, text: String, style: StyleConfig, speed: u64)
        requires
            playable(old(self)@.stages),
            old(self)@.in_bounds(),
        ensures
            final(self)@ == (AppView {
                status: ActionStatus::Running,
                worker: WorkerView::Typing { text: text@, typed: 0, speed },
                ..old(self)@.push(Segment { text: prompt_marker(), style: style@ })
            }).advance(),
    {
        self.action_status = ActionStatus::Running;
        self.write_buf(String::from_str("> "), style);
        self.worker = Worker::Typing { text, typed: 0, speed };
        self.next_action_idx();
    }

    fn run_command(
        &mut self,
        command: String,
        remote: Option<RemoteConfig>,
        sudo: Option<SudoConfig>,
        hide_stdout: bool,
        hide_stderr: bool,
        loop_config: LoopConfig,
        env: &Environment,
        me: &LocalIdentity,
    ) -> (dispatch: Dispatch)
        requires
            playable(old(self)@.stages),
            old(self)@.in_bounds(),
            old(self)@.status == ActionStatus::Stopped,
            old(self)@.worker is Idle,
        ensures
            match SessionView::plan(opt_remote(remote), opt_sudo(sudo), env@, me@) {
                Err(fault) => {
                    &&& final(self)@ == old(self)@.push(error_segment(command@, fault)).advance()
                    &&& dispatch@ == DispatchView::Idle
                },
                Ok(session) => {
                    let job = JobView {
                        session,
                        command: command@,
                        hide_stdout,
                        hide_stderr,
                        times: loop_config.times,
                        delay: loop_config.spec_effective_delay(),
                    };
                    let running = AppView { status: ActionStatus::Running, ..old(self)@ };
                    match session.target {
                        Target::Remote(remote) => {
                            &&& final(self)@ == (AppView {
                                worker: WorkerView::Command {
                                    job,
                                    phase: Phase::Connecting,
                                    done: 0,
                                },
                                ..running
                            })
                            &&& dispatch@ == DispatchView::Connect(remote)
                        },
                        Target::Local(_) => {
                            &&& final(self)@ == running.start(job)
                            &&& dispatch@ == DispatchView::Spawn
                        },
                    }
                },
            },
    {
        self.action_status = ActionStatus::Running;
        let command_session = match CommandSession::new(remote, sudo, env, me) {
            Ok(command_session) => command_session,
            Err(e) => {
                self.report_failure(command.as_str(), &e);
                self.action_status = ActionStatus::Stopped;
                self.next_action_idx();
                return Dispatch::Idle;
            },
        };
        let target = command_session.remote();
        let job = CommandJob {
            session: command_session,
            command,
            hide_stdout,
            hide_stderr,
            times: loop_config.times,
            delay: loop_config.effective_delay(),
        };
        match target {
            Some(remote) => {
                self.worker = Worker::Command { job, phase: Phase::Connecting, done: 0 };
                Dispatch::Connect(remote)
            },
            None => {
                self.start(job);
                Dispatch::Spawn
            },
        }
    }

    fn report_failure(&mut self, command: &str, error: &SessionError)
        ensures
            final(self)@ == old(self)@.push(error_segment(command@, error@)),
    {
        let mut text = String::from_str("Failed to initialize a new session.\n\tCommand: ");
        text.append(command);
        text.append("\n\tError:   ");
        text.append(error.message().as_str());
        self.write_buf(text, StyleConfig::error());
    }

    fn start(&mut self, job: CommandJob)
        requires
            playable(old(self)@.stages),
            old(self)@.in_bounds(),
        ensures
            final(self)@ == old(self)@.start(job@),
    {
        let mut header = job.session.get_prompt();
        header.append(" ");
        header.append(job.command.as_str());
        header.append("\n");
        self.write_buf(header, StyleConfig::default());
        self.worker = Worker::Command { job, phase: Phase::Ready, done: 0 };
        self.next_action_idx();
    }

    fn write_buf(&mut self, text: String, style: StyleConfig)
        ensures
            final(self)@ == old(self)@.push(Segment { text: text@, style: style@ }),
    {
        self.buffer.push(BufferedOutput { text, style });
        proof {
            assert(final(self)@.buffer =~= old(self)@.buffer.push(
                Segment { text: text@, style: style@ },
            ));
        }
    }

    fn add_to_buf(&mut self, output: &str, hide_output: bool)
        ensures
            final(self)@ == old(self)@.show(hide_output, output@),
    {
        if !hide_output && output.unicode_len() > 0 {
            match self.buffer.pop() {
                Some(last) => {
                    let mut last = last;
                    last.text.append(output);
                    self.buffer.push(last);
                    proof {
                        assert(final(self)@.buffer =~= old(self)@.append_last(output@).buffer);
                    }
                },
                None => {
                    proof {
                        assert(final(self)@.buffer =~= old(self)@.buffer);
                    }
                },
            }
        }
    }

    fn exit(&mut self)
        ensures
            final(self)@ == (AppView { running: false, ..old(self)@ }),
    {
        self.running = false;
    }

    /// Takes the report of how connecting to the remote host went.
    pub fn session_connected(&mut self, outcome: Result<(), SessionError>) -> (dispatch: Dispatch)
        requires
            old(self).wf(),
        ensures
            final(self).wf(),
            final(self)@ == old(self)@.session_connected(fault_of(outcome)),
            dispatch@ == old(self)@.connected_dispatch(fault_of(outcome)),
    {
        proof {
            lemma_session_connected_wf(self@, fault_of(outcome));
        }
        let mut worker = Worker::Idle;
        std::mem::swap(&mut self.worker, &mut worker);
        match worker {
            Worker::Command { job, phase: Phase::Connecting, done } => match outcome {
                Ok(_) => {
                    self.start(job);
                    Dispatch::Spawn
                },
                Err(error) => {
                    self.report_failure(job.command.as_str(), &error);
                    self.action_status = ActionStatus::Stopped;
                    self.next_action_idx();
                    Dispatch::Idle
                },
            },
            other => {
                self.worker = other;
                Dispatch::Idle
            },
        }
    }

    /// Takes one step of the running action and says what the worker has to
    /// do next.
    pub fn work(&mut self) -> (step: WorkerStep)
        requires
            old(self).wf(),
        ensures
            final(self).wf(),
            final(self)@ == old(self)@.work(),
            step@ == old(self)@.work_step(),
            old(self)@.worker is Typing && final(self)@.status == ActionStatus::Stopped
                ==> final(self)@.buffer.len() > 0 && final(self)@.buffer.last().text
                == prompt_marker() + old(self)@.worker->text,
    {
        proof {
            lemma_work_wf(self@);
            if self@.worker is Typing {
                lemma_message_complete(self@);
            }
        }
        let forced = self.action_status.force_stop();
        let mut worker = Worker::Idle;
        std::mem::swap(&mut self.worker, &mut worker);
        match worker {
            Worker::Idle => WorkerStep::Done,
            Worker::Typing { text, typed, speed } => {
                let len = text.as_str().unicode_len();
                if forced {
                    let rest = tail_from(text.as_str(), typed);
                    self.add_to_buf(rest.as_str(), false);
                    self.action_status = ActionStatus::Stopped;
                    WorkerStep::Done
                } else if typed >= len {
                    self.action_status = ActionStatus::Stopped;
                    WorkerStep::Done
                } else {
                    let piece = String::from_str(text.as_str().substring_char(typed, typed + 1));
                    self.add_to_buf(piece.as_str(), false);
                    self.worker = Worker::Typing { text, typed: typed + 1, speed };
                    WorkerStep::Sleep(speed)
                }
            },
            Worker::Command { job, phase, done } => {
                match phase {
                    Phase::Ready => {
                        if done >= job.times {
                            self.action_status = ActionStatus::Stopped;
                            WorkerStep::Done
                        } else if forced {
                            self.add_to_buf("Command interrupted!\n", job.hide_stdout);
                            self.action_status = ActionStatus::Stopped;
                            WorkerStep::Done
                        } else {
                            let invocation = job.session.run_command(job.command.as_str());
                            self.worker = Worker::Command { job, phase: Phase::Executing, done };
                            WorkerStep::Execute(invocation)
                        }
                    },
                    _ => {
                        self.worker = Worker::Command { job, phase, done };
                        WorkerStep::Pending
                    },
                }
            },
        }
    }

    /// Takes the output of the repetition that was handed out, and says how
    /// many milliseconds the worker has to wait before its next step.
    pub fn command_finished(&mut self, stdout: Vec<u8>, stderr: Vec<u8>) -> (pause: u64)
        requires
            old(self).wf(),
        ensures
            final(self).wf(),
            final(self)@ == old(self)@.command_finished(stdout@, stderr@),
            pause == old(self)@.pause(),
    {
        proof {
            lemma_command_finished_wf(self@, stdout@, stderr@);
        }
        let mut worker = Worker::Idle;
        std::mem::swap(&mut self.worker, &mut worker);
        match worker {
            Worker::Command { job, phase: Phase::Executing, done } => {
                let mut job = job;
                job.session.store_output(stdout, stderr);
                let out = job.session.get_stdout();
                self.add_to_buf(out.as_str(), job.hide_stdout);
                let err = job.session.get_stderr();
                self.add_to_buf(err.as_str(), job.hide_stderr);
                let pause = if done + 1 < job.times {
                    job.delay
                } else {
                    0
                };
                self.worker = Worker::Command { job, phase: Phase::Ready, done: done + 1 };
                pause
            },
            other => {
                self.worker = other;
                0
            },
        }
    }

    /// Takes the report that the repetition that was handed out could not be
    /// run, and says how many milliseconds the worker has to wait before its
    /// next step.
    pub fn command_failed(&mut self, error: ExecutionError) -> (pause: u64)
        requires
            old(self).wf(),
        ensures
            final(self).wf(),
            final(self)@ == old(self)@.command_failed(error@),
            pause == old(self)@.pause(),
    {
        proof {
            lemma_command_failed_wf(self@, error@);
        }
        let mut worker = Worker::Idle;
        std::mem::swap(&mut self.worker, &mut worker);
        match worker {
            Worker::Command { job, phase: Phase::Executing, done } => {
                let mut notice = String::from_str("Command failed: ");
                notice.append(error.reason.as_str());
                notice.append("\n");
                proof {
                    reveal_strlit("\n");
                    assert(notice@.len() > 0);
                }
                self.add_to_buf(notice.as_str(), false);
                let pause = if done + 1 < job.times {
                    job.delay
                } else {
                    0
                };
                self.worker = Worker::Command { job, phase: Phase::Ready, done: done + 1 };
                pause
            },
            other => {
                self.worker = other;
                0
            },
        }
    }
}

} // verus!
