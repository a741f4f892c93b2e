//! What holds of every run of the engine.
//!
//! A run is a sequence of events: inputs of the operator, steps of the worker
//! and the reports that the caller hands back. Each law is stated of the
//! transitions that the engine's functions are proved to make.

use crate::config::{playable, ActionView, StageView};
use crate::model::{prompt_marker, ActionStatus, AppView, Input, Phase, WorkerView};
use crate::session::{LocalView, SessionFault};
use vstd::prelude::*;

verus! {

/// One thing that happens to an engine.
pub enum Event {
    /// The operator asks for something.
    Input { input: Input, env: Map<Seq<char>, Seq<char>>, me: LocalView },
    /// The caller reports how connecting went.
    Connected(Option<SessionFault>),
    /// The worker takes a step.
    Work,
    /// The caller reports the output of a repetition.
    Finished { stdout: Seq<u8>, stderr: Seq<u8> },
    /// The caller reports that a repetition could not be run.
    Failed(Seq<char>),
}

impl AppView {
    /// The state after an event.
    pub open spec fn step(self, event: Event) -> AppView {
        match event {
            Event::Input { input, env, me } => self.apply(input, env, me),
            Event::Connected(fault) => self.session_connected(fault),
            Event::Work => self.work(),
            Event::Finished { stdout, stderr } => self.command_finished(stdout, stderr),
            Event::Failed(reason) => self.command_failed(reason),
        }
    }

    /// The state after a sequence of events.
    pub open spec fn run(self, events: Seq<Event>) -> AppView
        decreases events.len(),
    {
        if events.len() == 0 {
            self
        } else {
            self.step(events[0]).run(events.skip(1))
        }
    }

    /// Whether a sequence of events leaves the operator out while no action
    /// runs: every input in it comes while the status is not `Stopped`.
    pub open spec fn undisturbed(self, events: Seq<Event>) -> bool
        decreases events.len(),
    {
        events.len() > 0 ==> {
            &&& events[0] is Input ==> self.status != ActionStatus::Stopped
            &&& self.step(events[0]).undisturbed(events.skip(1))
        }
    }

    /// The state after `Advance` was asked for `times` times in a row.
    pub open spec fn advanced(
        self,
        times: nat,
        env: Map<Seq<char>, Seq<char>>,
        me: LocalView,
    ) -> AppView
        decreases times,
    {
        if times == 0 {
            self
        } else {
            self.next_action(env, me).advanced((times - 1) as nat, env, me)
        }
    }

    /// Whether the engine waits for the connection of a remote command.
    pub open spec fn connecting(self) -> bool {
        self.worker matches WorkerView::Command { phase, .. } && phase == Phase::Connecting
    }

    /// Whether `self` is on the way from `origin` to the end of the action
    /// that began there: either still connecting, with buffer and position as
    /// in `origin`, or one segment and one position further.
    spec fn under_way(self, origin: AppView) -> bool {
        &&& self.stages == origin.stages
        &&& if self.connecting() {
            &&& self.buffer == origin.buffer
            &&& self.stage_idx == origin.stage_idx
            &&& self.action_idx == origin.action_idx
            &&& self.finished == origin.finished
        } else {
            &&& self.buffer.len() > 0
            &&& self.buffer.drop_last() == origin.buffer
            &&& self.stage_idx == origin.advance().stage_idx
            &&& self.action_idx == origin.advance().action_idx
            &&& self.finished == origin.advance().finished
        }
    }

    /// Whether `self` types the message `text`, or has typed all of it.
    spec fn typing(self, text: Seq<char>) -> bool {
        match self.worker {
            WorkerView::Typing { text: typed_text, .. } => typed_text == text,
            WorkerView::Idle => self.buffer.len() > 0 && self.buffer.last().text == prompt_marker()
                + text,
            _ => false,
        }
    }
}

/// A new engine is well formed.
pub proof fn lemma_initial_wf(stages: Seq<StageView>)
    requires
        playable(stages),
    ensures
        AppView::initial(stages).wf(),
{
}

/// `Advance` keeps the engine well formed.
pub proof fn lemma_next_action_wf(s: AppView, env: Map<Seq<char>, Seq<char>>, me: LocalView)
    requires
        s.wf(),
    ensures
        s.next_action(env, me).wf(),
{
    if s.status == ActionStatus::Stopped && !s.finished {
        let base = s.base();
        assert(base.wf());
        match base.current_action() {
            ActionView::Message { text, style, speed } => {
                assert(text.take(0) =~= Seq::<char>::empty());
                assert(prompt_marker() + text.take(0) =~= prompt_marker());
            },
            ActionView::Command { .. } => {},
        }
    }
}

/// `Retreat` keeps the engine well formed.
pub proof fn lemma_prev_action_wf(s: AppView)
    requires
        s.wf(),
    ensures
        s.prev_action().wf(),
{
}

/// An input keeps the engine well formed.
pub proof fn lemma_apply_wf(
    s: AppView,
    input: Input,
    env: Map<Seq<char>, Seq<char>>,
    me: LocalView,
)
    requires
        s.wf(),
    ensures
        s.apply(input, env, me).wf(),
{
    lemma_next_action_wf(s, env, me);
    lemma_prev_action_wf(s);
}

/// The report of a connection keeps the engine well formed.
pub proof fn lemma_session_connected_wf(s: AppView, fault: Option<SessionFault>)
    requires
        s.wf(),
    ensures
        s.session_connected(fault).wf(),
{
}

/// A step of the worker keeps the engine well formed.
pub proof fn lemma_work_wf(s: AppView)
    requires
        s.wf(),
    ensures
        s.work().wf(),
{
    match s.worker {
        WorkerView::Typing { text, typed, speed } => {
            if !(s.status == ActionStatus::Forced) && typed < text.len() {
                assert(text.take(typed as int) + text.subrange(typed as int, typed as int + 1)
                    =~= text.take(typed as int + 1));
                assert(prompt_marker() + text.take(typed as int) + text.subrange(
                    typed as int,
                    typed as int + 1,
                ) =~= prompt_marker() + text.take(typed as int + 1));
            }
        },
        _ => {},
    }
}

/// The report of a repetition's output keeps the engine well formed.
pub proof fn lemma_command_finished_wf(s: AppView, stdout: Seq<u8>, stderr: Seq<u8>)
    requires
        s.wf(),
    ensures
        s.command_finished(stdout, stderr).wf(),
{
}

/// The report of a repetition that failed keeps the engine well formed.
pub proof fn lemma_command_failed_wf(s: AppView, reason: Seq<char>)
    requires
        s.wf(),
    ensures
        s.command_failed(reason).wf(),
{
}

/// An event keeps the engine well formed.
pub proof fn lemma_step_wf(s: AppView, event: Event)
    requires
        s.wf(),
    ensures
        s.step(event).wf(),
{
    match event {
        Event::Input { input, env, me } => lemma_apply_wf(s, input, env, me),
        Event::Connected(fault) => lemma_session_connected_wf(s, fault),
        Event::Work => lemma_work_wf(s),
        Event::Finished { stdout, stderr } => lemma_command_finished_wf(s, stdout, stderr),
        Event::Failed(reason) => lemma_command_failed_wf(s, reason),
    }
}

/// Navigation bounds: whatever happens to an engine, in whatever order, its
/// position stays at an action of a stage, or it is finished and parked just
/// past the last action of the last stage.
pub proof fn lemma_navigation_bounds(s: AppView, events: Seq<Event>)
    requires
        s.wf(),
    ensures
        s.run(events).wf(),
        s.run(events).in_bounds(),
        s.run(events).stages == s.stages,
    decreases events.len(),
{
    if events.len() > 0 {
        lemma_step_wf(s, events[0]);
        lemma_step_keeps_script(s, events[0]);
        lemma_navigation_bounds(s.step(events[0]), events.skip(1));
    }
}

/// No event changes the script.
pub proof fn lemma_step_keeps_script(s: AppView, event: Event)
    ensures
        s.step(event).stages == s.stages,
{
}

/// One action at a time: while an action runs, no input asks the caller to
/// connect or to start a worker.
pub proof fn lemma_one_action_at_a_time(
    s: AppView,
    input: Input,
    env: Map<Seq<char>, Seq<char>>,
    me: LocalView,
)
    requires
        s.status != ActionStatus::Stopped,
    ensures
        s.apply_dispatch(input, env, me) is Idle,
        s.apply(input, env, me).worker == s.worker,
        s.apply(input, env, me).buffer == s.buffer,
        s.apply(input, env, me).stage_idx == s.stage_idx,
        s.apply(input, env, me).action_idx == s.action_idx,
        s.apply(input, env, me).finished == s.finished,
{
}

/// Interrupt is idempotent, one step: while an action runs, `Advance` asks it
/// to stop and changes nothing else; once it is asked, `Advance` changes
/// nothing at all.
pub proof fn lemma_interrupt_once(s: AppView, env: Map<Seq<char>, Seq<char>>, me: LocalView)
    ensures
        s.status == ActionStatus::Running ==> s.next_action(env, me) == (AppView {
            status: ActionStatus::Forced,
            ..s
        }),
        s.status == ActionStatus::Forced ==> s.next_action(env, me) == s,
{
}

/// Interrupt is idempotent: however often `Advance` is asked for while an
/// action runs, the status becomes `Forced` and nothing else changes.
pub proof fn lemma_interrupt_is_idempotent(
    s: AppView,
    times: nat,
    env: Map<Seq<char>, Seq<char>>,
    me: LocalView,
)
    requires
        s.status != ActionStatus::Stopped,
        times > 0,
    ensures
        s.advanced(times, env, me) == (AppView { status: ActionStatus::Forced, ..s }),
    decreases times,
{
    let next = s.next_action(env, me);
    assert(next == AppView { status: ActionStatus::Forced, ..s });
    if times > 1 {
        lemma_interrupt_is_idempotent(next, (times - 1) as nat, env, me);
        assert(s.advanced(times, env, me) == next.advanced((times - 1) as nat, env, me));
    } else {
        assert(next.advanced(0, env, me) == next);
    }
}

/// Retreat undoes Advance, while an action is stopping: `Advance` and then
/// `Retreat` change nothing at all.
pub proof fn lemma_retreat_after_interrupt(
    s: AppView,
    env: Map<Seq<char>, Seq<char>>,
    me: LocalView,
)
    requires
        s.status == ActionStatus::Forced,
    ensures
        s.next_action(env, me).prev_action() == s,
{
}

proof fn lemma_under_way_step(s: AppView, origin: AppView, event: Event)
    requires
        s.wf(),
        s.under_way(origin),
        event is Input ==> s.status != ActionStatus::Stopped,
    ensures
        s.step(event).under_way(origin),
{
    let next = s.step(event);
    match event {
        Event::Input { input, env, me } => {},
        Event::Connected(fault) => {
            if s.connecting() {
                match fault {
                    None => {
                        assert(next.buffer.drop_last() =~= s.buffer);
                    },
                    Some(fault) => {
                        assert(next.buffer.drop_last() =~= s.buffer);
                    },
                }
            }
        },
        Event::Work => {
            assert(next.buffer.len() == s.buffer.len());
            if !s.connecting() {
                assert(next.buffer.drop_last() =~= s.buffer.drop_last());
            }
        },
        Event::Finished { stdout, stderr } => {
            assert(next.buffer.len() == s.buffer.len());
            if !s.connecting() {
                assert(next.buffer.drop_last() =~= s.buffer.drop_last());
            }
        },
        Event::Failed(reason) => {
            assert(next.buffer.len() == s.buffer.len());
            if !s.connecting() {
                assert(next.buffer.drop_last() =~= s.buffer.drop_last());
            }
        },
    }
}

proof fn lemma_under_way_run(s: AppView, origin: AppView, events: Seq<Event>)
    requires
        s.wf(),
        s.under_way(origin),
        s.undisturbed(events),
    ensures
        s.run(events).under_way(origin),
        s.run(events).wf(),
    decreases events.len(),
{
    if events.len() > 0 {
        lemma_step_wf(s, events[0]);
        lemma_under_way_step(s, origin, events[0]);
        lemma_under_way_run(s.step(events[0]), origin, events.skip(1));
    }
}

/// Retreat undoes Advance: where no action runs and the current action is not
/// the last of a stage that another stage follows, `Advance`, then whatever
/// the action does until it is over, then `Retreat` leads back to the
/// position before, and the buffer is what the action started from: `Retreat`
/// removes exactly the segment that the action added.
pub proof fn lemma_retreat_undoes_advance(
    s: AppView,
    env: Map<Seq<char>, Seq<char>>,
    me: LocalView,
    events: Seq<Event>,
)
    requires
        s.wf(),
        s.status == ActionStatus::Stopped,
        !s.finished,
        s.action_idx + 1 < s.stages[s.stage_idx as int].actions.len() || s.stage_idx + 1
            == s.stages.len(),
        s.next_action(env, me).undisturbed(events),
        s.next_action(env, me).run(events).status == ActionStatus::Stopped,
    ensures
        ({
            let back = s.next_action(env, me).run(events).prev_action();
            &&& back.stage_idx == s.stage_idx
            &&& back.action_idx == s.action_idx
            &&& back.finished == s.finished
            &&& back.buffer == s.base().buffer
            &&& !(s.action_idx == 0 && s.stage_idx > 0) ==> back.buffer == s.buffer
        }),
{
    let origin = s.base();
    let begun = s.next_action(env, me);
    lemma_next_action_wf(s, env, me);
    assert(begun.under_way(origin)) by {
        assert(begun == s.begin(env, me));
        if !begun.connecting() {
            assert(begun.buffer.drop_last() =~= origin.buffer);
        }
    }
    lemma_under_way_run(begun, origin, events);
    let settled = begun.run(events);
    assert(!settled.connecting());
}

proof fn lemma_typing_step(s: AppView, text: Seq<char>, event: Event)
    requires
        s.wf(),
        s.typing(text),
        event is Input ==> s.status != ActionStatus::Stopped,
    ensures
        s.step(event).typing(text),
{
    match event {
        Event::Work => {
            if s.worker is Typing {
                lemma_message_complete(s);
            }
        },
        _ => {},
    }
}

proof fn lemma_typing_run(s: AppView, text: Seq<char>, events: Seq<Event>)
    requires
        s.wf(),
        s.typing(text),
        s.undisturbed(events),
    ensures
        s.run(events).typing(text),
        s.run(events).wf(),
    decreases events.len(),
{
    if events.len() > 0 {
        lemma_step_wf(s, events[0]);
        lemma_typing_step(s, text, events[0]);
        lemma_typing_run(s.step(events[0]), text, events.skip(1));
    }
}

/// Message completeness, one step: the step of the worker that ends a message,
/// whether the message was asked to stop or not, leaves the marker and the
/// whole text of the message in the last segment.
pub proof fn lemma_message_complete(s: AppView)
    requires
        s.wf(),
        s.worker is Typing,
    ensures
        s.work().status == ActionStatus::Stopped ==> s.work().buffer.len() > 0
            && s.work().buffer.last().text == prompt_marker() + s.worker->text,
        s.work().status != ActionStatus::Stopped ==> s.work().worker is Typing
            && s.work().worker->text == s.worker->text,
{
    let text = s.worker->text;
    let typed = s.worker->typed as int;
    if s.status == ActionStatus::Forced {
        assert(text.take(typed) + text.skip(typed) =~= text);
        assert(prompt_marker() + text.take(typed) + text.skip(typed) =~= prompt_marker() + text);
        if text.skip(typed).len() == 0 {
            assert(text.take(typed) =~= text);
        }
    } else if typed >= text.len() {
        assert(text.take(typed) =~= text);
    }
}

/// Message completeness: once a message has begun, whatever happens until no
/// action runs any more, and whenever it was asked to stop, the last segment
/// of the buffer then holds the marker and the whole text of the message.
pub proof fn lemma_message_completes(
    s: AppView,
    env: Map<Seq<char>, Seq<char>>,
    me: LocalView,
    events: Seq<Event>,
)
    requires
        s.wf(),
        s.status == ActionStatus::Stopped,
        !s.finished,
        s.current_action() is Message,
        s.next_action(env, me).undisturbed(events),
        s.next_action(env, me).run(events).status == ActionStatus::Stopped,
    ensures
        ({
            let settled = s.next_action(env, me).run(events);
            &&& settled.buffer.len() > 0
            &&& settled.buffer.last().text == prompt_marker() + s.current_action()->text
        }),
{
    let text = s.current_action()->text;
    let begun = s.next_action(env, me);
    lemma_next_action_wf(s, env, me);
    assert(s.base().current_action() == s.current_action());
    assert(begun.typing(text));
    lemma_typing_run(begun, text, events);
}

} // verus!
