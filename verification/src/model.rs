//! The engine as a state machine over plain values: what each input and each
//! step of a running action does to the position, the output buffer and the
//! execution status.
//!
//! The engine itself keeps to these transitions; what holds of every run is
//! proved of them.

use crate::config::{
    flag_or_default, loop_or_default, playable, speed_or_default, style_or_plain, ActionView,
    RemoteView, StageView, StyleView,
};
use crate::session::{InvocationView, LocalView, SessionFault, SessionView, Target, utf8_lossy};
use vstd::prelude::*;

verus! {

/// Whether an action is running.
#[derive(Clone, Copy, Debug, PartialEq, Eq, Structural)]
pub enum ActionStatus {
    /// An action is running.
    Running,
    /// An action is running and has been asked to stop.
    Forced,
    /// No action is running.
    Stopped,
}

impl ActionStatus {
    /// Whether a running action has been asked to stop.
    pub fn force_stop(&self) -> (forced: bool)
        ensures
            forced == (*self == ActionStatus::Forced),
    {
        match self {
            ActionStatus::Forced => true,
            _ => false,
        }
    }
}

impl Default for ActionStatus {
    fn default() -> (status: Self)
        ensures
            status == ActionStatus::Stopped,
    {
        ActionStatus::Stopped
    }
}

/// What a command action waits for.
#[derive(Clone, Copy, Debug, PartialEq, Eq, Structural)]
pub enum Phase {
    /// For the connection to its remote host.
    Connecting,
    /// For the next call of the worker.
    Ready,
    /// For the output of the repetition that was handed out.
    Executing,
}

/// A key as the engine reads it.
#[derive(Clone, Copy, Debug, PartialEq, Eq, Structural)]
pub enum Key {
    Char(char),
    Left,
    Right,
    Up,
    Down,
    PageUp,
    PageDown,
    Other,
}

/// What an operator can ask of the engine.
#[derive(Clone, Copy, Debug, PartialEq, Eq, Structural)]
pub enum Input {
    /// Run the current action and go on; while one runs, ask it to stop.
    Advance,
    /// Go back one action.
    Retreat,
    /// Show earlier output.
    ScrollUp(u16),
    /// Show later output.
    ScrollDown(u16),
    /// Leave.
    Quit,
}

/// What a key asks for: `q` and `Q` leave, the right arrow advances, the left
/// one retreats, the up and down arrows scroll by one line, the page keys by
/// ten; other keys ask for nothing.
pub open spec fn decode(key: Key) -> Option<Input> {
    match key {
        Key::Char(c) => if c == 'q' || c == 'Q' {
            Some(Input::Quit)
        } else {
            None
        },
        Key::Left => Some(Input::Retreat),
        Key::Right => Some(Input::Advance),
        Key::Up => Some(Input::ScrollUp(1)),
        Key::PageUp => Some(Input::ScrollUp(10)),
        Key::Down => Some(Input::ScrollDown(1)),
        Key::PageDown => Some(Input::ScrollDown(10)),
        Key::Other => None,
    }
}

/// What the status line shows.
#[derive(Clone, Copy, Debug, PartialEq, Eq, Structural)]
pub enum StatusIndicator {
    Finished,
    Running,
    Stopping,
    Stopped,
}

/// One piece of the output buffer: a text and how it is to look.
pub struct Segment {
    pub text: Seq<char>,
    pub style: StyleView,
}

/// What a command action runs, where, and how its output is shown.
pub struct JobView {
    pub session: SessionView,
    pub command: Seq<char>,
    pub hide_stdout: bool,
    pub hide_stderr: bool,
    pub times: u32,
    pub delay: u64,
}

/// The action that is running, and how far it has come.
pub enum WorkerView {
    /// No action is running.
    Idle,
    /// A message of which the first `typed` characters are shown.
    Typing { text: Seq<char>, typed: nat, speed: u64 },
    /// A command of which `done` repetitions are over.
    Command { job: JobView, phase: Phase, done: u32 },
}

/// What the caller has to do after an input.
pub enum DispatchView {
    /// Nothing.
    Idle,
    /// Open the connection, and report how that went.
    Connect(RemoteView),
    /// Start a worker for the action that has begun.
    Spawn,
}

/// What a worker has to do next.
pub enum StepView {
    /// Wait so many milliseconds, then ask again.
    Sleep(u64),
    /// Run this, and report the output.
    Execute(InvocationView),
    /// Nothing: the engine waits for a report.
    Pending,
    /// Nothing more: the action is over.
    Done,
}

/// What a message begins with in the buffer.
pub open spec fn prompt_marker() -> Seq<char> {
    "> "@
}

/// What is shown in place of the repetitions that an interrupt skipped.
pub open spec fn interrupted_notice() -> Seq<char> {
    "Command interrupted!\n"@
}

/// The title of a stage.
pub open spec fn title_segment(name: Seq<char>) -> Segment {
    Segment { text: "### "@ + name + " ###"@, style: StyleView::title() }
}

/// The header of a command: prompt, command and a line feed.
pub open spec fn header_segment(job: JobView) -> Segment {
    Segment { text: job.session.prompt() + " "@ + job.command + "\n"@, style: StyleView::plain() }
}

/// The report of a session that could not be set up.
pub open spec fn error_segment(command: Seq<char>, fault: SessionFault) -> Segment {
    Segment {
        text: "Failed to initialize a new session.\n\tCommand: "@ + command + "\n\tError:   "@
            + fault.message(),
        style: StyleView::error(),
    }
}

/// The report of a repetition that could not be run.
pub open spec fn failure_notice(reason: Seq<char>) -> Seq<char> {
    "Command failed: "@ + reason + "\n"@
}

/// The engine's state.
pub struct AppView {
    pub running: bool,
    pub stages: Seq<StageView>,
    pub buffer: Seq<Segment>,
    pub stage_idx: nat,
    pub action_idx: nat,
    pub finished: bool,
    pub status: ActionStatus,
    pub scroll: u16,
    pub worker: WorkerView,
}

impl AppView {
    /// The state of a new engine: at the first action of the first stage,
    /// with the title of that stage in the buffer.
    pub open spec fn initial(stages: Seq<StageView>) -> AppView {
        AppView {
            running: true,
            stages,
            buffer: seq![title_segment(stages[0].name)],
            stage_idx: 0,
            action_idx: 0,
            finished: false,
            status: ActionStatus::Stopped,
            scroll: 0,
            worker: WorkerView::Idle,
        }
    }

    /// The position is within the script: at an action of a stage, or, when
    /// finished, just past the last action of the last stage.
    pub open spec fn in_bounds(self) -> bool {
        &&& self.stage_idx < self.stages.len()
        &&& if self.finished {
            &&& self.stage_idx + 1 == self.stages.len()
            &&& self.action_idx == self.stages[self.stage_idx as int].actions.len()
        } else {
            self.action_idx < self.stages[self.stage_idx as int].actions.len()
        }
    }

    /// The running action fits the status and the buffer: a worker exists
    /// exactly while the status is not `Stopped`, a message shows its marker
    /// and what was typed so far, and a command has not run more often than
    /// asked.
    pub open spec fn worker_fits(self) -> bool {
        &&& self.status == ActionStatus::Stopped <==> self.worker is Idle
        &&& match self.worker {
            WorkerView::Idle => true,
            WorkerView::Typing { text, typed, speed } => {
                &&& typed <= text.len()
                &&& self.buffer.len() > 0
                &&& self.buffer.last().text == prompt_marker() + text.take(typed as int)
            },
            WorkerView::Command { job, phase, done } => {
                &&& done <= job.times
                &&& phase == Phase::Executing ==> done < job.times
                &&& phase == Phase::Connecting ==> done == 0
            },
        }
    }

    /// What holds of every state that an engine reaches.
    pub open spec fn wf(self) -> bool {
        &&& playable(self.stages)
        &&& self.in_bounds()
        &&& self.buffer.len() > self.action_idx
        &&& self.worker_fits()
    }

    /// The action at the position.
    pub open spec fn current_action(self) -> ActionView {
        self.stages[self.stage_idx as int].actions[self.action_idx as int]
    }

    /// The state with the buffer holding nothing but the title of the stage.
    pub open spec fn with_title(self) -> AppView {
        AppView { buffer: seq![title_segment(self.stages[self.stage_idx as int].name)], ..self }
    }

    /// The state with one more segment.
    pub open spec fn push(self, segment: Segment) -> AppView {
        AppView { buffer: self.buffer.push(segment), ..self }
    }

    /// The state with `text` added to the last segment.
    pub open spec fn append_last(self, text: Seq<char>) -> AppView {
        if self.buffer.len() == 0 {
            self
        } else {
            AppView {
                buffer: self.buffer.update(
                    self.buffer.len() - 1,
                    Segment { text: self.buffer.last().text + text, ..self.buffer.last() },
                ),
                ..self
            }
        }
    }

    /// The state with `text` shown: added to the last segment, unless it is
    /// hidden or empty.
    pub open spec fn show(self, hide: bool, text: Seq<char>) -> AppView {
        if hide || text.len() == 0 {
            self
        } else {
            self.append_last(text)
        }
    }

    /// The state with the running action over.
    pub open spec fn stop(self) -> AppView {
        AppView { status: ActionStatus::Stopped, worker: WorkerView::Idle, ..self }
    }

    /// The state with the position one action on: the next action of the
    /// stage, else the first of the next stage, else finished.
    pub open spec fn advance(self) -> AppView {
        if self.finished {
            self
        } else if self.action_idx + 1 < self.stages[self.stage_idx as int].actions.len() {
            AppView { action_idx: self.action_idx + 1, ..self }
        } else if self.stage_idx + 1 < self.stages.len() {
            AppView { stage_idx: self.stage_idx + 1, action_idx: 0, ..self }
        } else {
            AppView { action_idx: self.action_idx + 1, finished: true, ..self }
        }
    }

    /// The state from which the current action starts: with the buffer reset
    /// to the stage's title where the action is the first of a later stage.
    pub open spec fn base(self) -> AppView {
        if self.action_idx == 0 && self.stage_idx > 0 {
            self.with_title()
        } else {
            self
        }
    }

    /// The state with a command under way: its header shown, the position
    /// one action on.
    pub open spec fn start(self, job: JobView) -> AppView {
        AppView {
            worker: WorkerView::Command { job, phase: Phase::Ready, done: 0 },
            ..self.push(header_segment(job))
        }.advance()
    }

    /// The job of a command action, once its session is planned.
    pub open spec fn job_of(action: ActionView, session: SessionView) -> JobView
        recommends
            action is Command,
    {
        JobView {
            session,
            command: action->command.command(),
            hide_stdout: flag_or_default(action->hide_stdout),
            hide_stderr: flag_or_default(action->hide_stderr),
            times: loop_or_default(action->loop_config).times,
            delay: loop_or_default(action->loop_config).spec_effective_delay(),
        }
    }

    /// The state after the current action has begun.
    pub open spec fn begin(self, env: Map<Seq<char>, Seq<char>>, me: LocalView) -> AppView {
        let base = self.base();
        match base.current_action() {
            ActionView::Message { text, style, speed } => AppView {
                status: ActionStatus::Running,
                worker: WorkerView::Typing { text, typed: 0, speed: speed_or_default(speed) },
                ..base.push(Segment { text: prompt_marker(), style: style_or_plain(style) })
            }.advance(),
            ActionView::Command { command, sudo, remote, .. } => match SessionView::plan(
                remote,
                sudo,
                env,
                me,
            ) {
                Err(fault) => base.push(error_segment(command.command(), fault)).advance(),
                Ok(session) => {
                    let job = Self::job_of(base.current_action(), session);
                    let running = AppView { status: ActionStatus::Running, ..base };
                    if session.target is Remote {
                        AppView {
                            worker: WorkerView::Command { job, phase: Phase::Connecting, done: 0 },
                            ..running
                        }
                    } else {
                        running.start(job)
                    }
                },
            },
        }
    }

    /// What the caller has to do once the current action has begun.
    pub open spec fn begin_dispatch(
        self,
        env: Map<Seq<char>, Seq<char>>,
        me: LocalView,
    ) -> DispatchView {
        match self.current_action() {
            ActionView::Message { .. } => DispatchView::Spawn,
            ActionView::Command { sudo, remote, .. } => match SessionView::plan(
                remote,
                sudo,
                env,
                me,
            ) {
                Err(_) => DispatchView::Idle,
                Ok(session) => match session.target {
                    Target::Remote(remote) => DispatchView::Connect(remote),
                    Target::Local(_) => DispatchView::Spawn,
                },
            },
        }
    }

    /// The state after `Advance`: a running action is asked to stop, once; a
    /// finished engine stays as it is; else the current action begins.
    pub open spec fn next_action(self, env: Map<Seq<char>, Seq<char>>, me: LocalView) -> AppView {
        match self.status {
            ActionStatus::Running => AppView { status: ActionStatus::Forced, ..self },
            ActionStatus::Forced => self,
            ActionStatus::Stopped => if self.finished {
                self
            } else {
                self.begin(env, me)
            },
        }
    }

    /// What the caller has to do after `Advance`.
    pub open spec fn next_dispatch(
        self,
        env: Map<Seq<char>, Seq<char>>,
        me: LocalView,
    ) -> DispatchView {
        if self.status == ActionStatus::Stopped && !self.finished {
            self.begin_dispatch(env, me)
        } else {
            DispatchView::Idle
        }
    }

    /// The state after `Retreat`: nothing changes while an action runs; else
    /// the engine is no longer finished and, at the first action of a stage,
    /// moves to the stage before it and shows that stage's title, and
    /// anywhere else moves back one action and drops the last segment.
    pub open spec fn prev_action(self) -> AppView {
        if self.status != ActionStatus::Stopped {
            self
        } else if self.action_idx == 0 {
            if self.stage_idx > 0 {
                AppView {
                    finished: false,
                    stage_idx: (self.stage_idx - 1) as nat,
                    ..self
                }.with_title()
            } else {
                AppView { finished: false, ..self }
            }
        } else {
            AppView {
                finished: false,
                action_idx: (self.action_idx - 1) as nat,
                buffer: self.buffer.drop_last(),
                ..self
            }
        }
    }

    /// The scroll offset moved up, as far as it goes.
    pub open spec fn scroll_up(self, lines: u16) -> AppView {
        AppView {
            scroll: if self.scroll + lines > u16::MAX {
                u16::MAX
            } else {
                (self.scroll + lines) as u16
            },
            ..self
        }
    }

    /// The scroll offset moved down, as far as it goes.
    pub open spec fn scroll_down(self, lines: u16) -> AppView {
        AppView {
            scroll: if self.scroll < lines {
                0
            } else {
                (self.scroll - lines) as u16
            },
            ..self
        }
    }

    /// The state after an input.
    pub open spec fn apply(
        self,
        input: Input,
        env: Map<Seq<char>, Seq<char>>,
        me: LocalView,
    ) -> AppView {
        match input {
            Input::Advance => self.next_action(env, me),
            Input::Retreat => self.prev_action(),
            Input::ScrollUp(lines) => self.scroll_up(lines),
            Input::ScrollDown(lines) => self.scroll_down(lines),
            Input::Quit => AppView { running: false, ..self },
        }
    }

    /// What the caller has to do after an input.
    pub open spec fn apply_dispatch(
        self,
        input: Input,
        env: Map<Seq<char>, Seq<char>>,
        me: LocalView,
    ) -> DispatchView {
        match input {
            Input::Advance => self.next_dispatch(env, me),
            _ => DispatchView::Idle,
        }
    }

    /// The state after a key.
    pub open spec fn handle(self, key: Key, env: Map<Seq<char>, Seq<char>>, me: LocalView) -> AppView {
        match decode(key) {
            Some(input) => self.apply(input, env, me),
            None => self,
        }
    }

    /// What the caller has to do after a key.
    pub open spec fn handle_dispatch(
        self,
        key: Key,
        env: Map<Seq<char>, Seq<char>>,
        me: LocalView,
    ) -> DispatchView {
        match decode(key) {
            Some(input) => self.apply_dispatch(input, env, me),
            None => DispatchView::Idle,
        }
    }

    /// The state after the connection of a remote command was reported: with
    /// the command under way, or with the fault shown and the action over.
    /// Nothing changes where no connection was asked for.
    pub open spec fn session_connected(self, fault: Option<SessionFault>) -> AppView {
        match self.worker {
            WorkerView::Command { job, phase: Phase::Connecting, done } => match fault {
                None => self.start(job),
                Some(fault) => self.push(error_segment(job.command, fault)).stop().advance(),
            },
            _ => self,
        }
    }

    /// What the caller has to do after the connection was reported.
    pub open spec fn connected_dispatch(self, fault: Option<SessionFault>) -> DispatchView {
        match self.worker {
            WorkerView::Command { job, phase: Phase::Connecting, done } => match fault {
                None => DispatchView::Spawn,
                Some(_) => DispatchView::Idle,
            },
            _ => DispatchView::Idle,
        }
    }

    /// The state after one step of the worker. A message that was asked to
    /// stop shows all that was left of it and is over; else it shows one more
    /// character, or is over when none is left. A command is over when it has
    /// run as often as asked; when asked to stop, it shows the notice in place
    /// of the repetitions that are left and is over; else its next repetition
    /// is handed out.
    pub open spec fn work(self) -> AppView {
        match self.worker {
            WorkerView::Idle => self,
            WorkerView::Typing { text, typed, speed } => {
                if self.status == ActionStatus::Forced {
                    self.show(false, text.skip(typed as int)).stop()
                } else if typed >= text.len() {
                    self.stop()
                } else {
                    AppView {
                        worker: WorkerView::Typing { text, typed: typed + 1, speed },
                        ..self.append_last(text.subrange(typed as int, typed as int + 1))
                    }
                }
            },
            WorkerView::Command { job, phase, done } => {
                if phase != Phase::Ready {
                    self
                } else if done >= job.times {
                    self.stop()
                } else if self.status == ActionStatus::Forced {
                    self.show(job.hide_stdout, interrupted_notice()).stop()
                } else {
                    AppView {
                        worker: WorkerView::Command { job, phase: Phase::Executing, done },
                        ..self
                    }
                }
            },
        }
    }

    /// What the worker has to do after its step.
    pub open spec fn work_step(self) -> StepView {
        match self.worker {
            WorkerView::Idle => StepView::Done,
            WorkerView::Typing { text, typed, speed } => {
                if self.status == ActionStatus::Forced || typed >= text.len() {
                    StepView::Done
                } else {
                    StepView::Sleep(speed)
                }
            },
            WorkerView::Command { job, phase, done } => {
                if phase != Phase::Ready {
                    StepView::Pending
                } else if done >= job.times || self.status == ActionStatus::Forced {
                    StepView::Done
                } else {
                    StepView::Execute(job.session.invocation(job.command))
                }
            },
        }
    }

    /// Whether the engine waits for the output of a repetition.
    pub open spec fn executing(self) -> bool {
        self.worker matches WorkerView::Command { phase, .. } && phase == Phase::Executing
    }

    /// The state with one more repetition over.
    pub open spec fn repetition_done(self, session: SessionView) -> AppView {
        match self.worker {
            WorkerView::Command { job, phase, done } => AppView {
                worker: WorkerView::Command {
                    job: JobView { session, ..job },
                    phase: Phase::Ready,
                    done: (done + 1) as u32,
                },
                ..self
            },
            _ => self,
        }
    }

    /// The state after the output of a repetition was reported: standard
    /// output, then standard error, each shown unless hidden or empty.
    /// Nothing changes where no repetition was handed out.
    pub open spec fn command_finished(self, stdout: Seq<u8>, stderr: Seq<u8>) -> AppView {
        match self.worker {
            WorkerView::Command { job, phase: Phase::Executing, done } => self.show(
                job.hide_stdout,
                utf8_lossy(stdout),
            ).show(job.hide_stderr, utf8_lossy(stderr)).repetition_done(
                job.session.with_output(stdout, stderr),
            ),
            _ => self,
        }
    }

    /// The state after a repetition was reported as not run: the reason is
    /// shown. Nothing changes where no repetition was handed out.
    pub open spec fn command_failed(self, reason: Seq<char>) -> AppView {
        match self.worker {
            WorkerView::Command { job, phase: Phase::Executing, done } => self.append_last(
                failure_notice(reason),
            ).repetition_done(job.session),
            _ => self,
        }
    }

    /// The pause in milliseconds before the next step of the worker, once a
    /// repetition was reported: the delay of the command between two
    /// repetitions, none after the last.
    pub open spec fn pause(self) -> u64 {
        match self.worker {
            WorkerView::Command { job, phase: Phase::Executing, done } => if done + 1 < job.times {
                job.delay
            } else {
                0
            },
            _ => 0,
        }
    }

    /// What the status line shows.
    pub open spec fn indicator(self) -> StatusIndicator {
        match self.status {
            ActionStatus::Running => StatusIndicator::Running,
            ActionStatus::Forced => if self.finished {
                StatusIndicator::Finished
            } else {
                StatusIndicator::Stopping
            },
            ActionStatus::Stopped => if self.finished {
                StatusIndicator::Finished
            } else {
                StatusIndicator::Stopped
            },
        }
    }
}

} // verus!
