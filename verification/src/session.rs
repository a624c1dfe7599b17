//! The course of a relay session, as a machine that the caller drives.
//!
//! The caller owns everything that takes time or can fail outside this crate:
//! the prompt, the configuration file, the socket, the game process, the
//! queue. It tells the session what happened, one [`Event`] at a time, and the
//! session answers with the [`Action`] to take next. The first failure ends
//! the session with that failure; success is reported only when every unit
//! that was started has ended.

use vstd::prelude::*;
use crate::warning::{
    clone_names, get_warnings, lemma_gate_is_idempotent, spec_acknowledge_all, spec_banner,
    spec_get_warnings, spec_mods, spec_pending, spec_texts, ActiveMod, ActiveModView,
    PendingWarning, PendingWarningView,
};

verus! {

/// How many events the queue between listener and dispatch holds before the
/// listener has to wait.
pub const QUEUE_CAPACITY: usize = 32;

/// The two ways to run a session.
#[derive(Clone, Copy, Debug, PartialEq, Eq, Structural)]
pub enum Mode {
    /// Only listen for logs; no game is launched.
    Passive,
    /// Launch the game and relay its logs while it runs.
    Active,
}

/// Where a session stands.
#[derive(Clone, Copy, Debug, PartialEq, Eq, Structural)]
pub enum Phase {
    /// A banner is on screen and the acknowledgement is awaited.
    Prompting,
    /// The configuration is being saved.
    Saving,
    /// The socket is being opened.
    Binding,
    /// The units run side by side.
    Running,
    /// The session is over.
    Finished,
}

/// Why a session failed, with the error of the step or unit that failed.
#[derive(Clone, Debug, PartialEq, Eq)]
pub enum RunError<E> {
    /// The socket could not be opened.
    BindError(E),
    /// The game did not start, or ended badly.
    LaunchError(E),
    /// The configuration could not be saved.
    PersistError(E),
    /// Reading the acknowledgement or the transport failed.
    IOError(E),
}

/// What the caller reports to the session.
#[derive(Clone, Debug, PartialEq, Eq)]
pub enum Event<E> {
    /// The player acknowledged the banner on screen.
    Acknowledged,
    /// The acknowledgement could not be read.
    PromptFailed(E),
    /// The configuration was saved.
    Saved,
    /// The configuration could not be saved.
    SaveFailed(E),
    /// The socket is open on this port.
    Bound(u16),
    /// The socket could not be opened.
    BindFailed(E),
    /// The listener ended normally.
    ListenerEnded,
    /// The listener failed.
    ListenerFailed(E),
    /// The game ran and exited.
    LaunchEnded,
    /// The game did not start, or ended badly.
    LaunchFailed(E),
    /// The queue was closed and dispatch has drained it.
    DispatchEnded,
}

/// What the session asks the caller to do next.
#[derive(Debug, PartialEq, Eq)]
pub enum Action<E> {
    /// Show this banner and wait for one byte of input.
    Prompt(String),
    /// Save the configuration with these names as the acknowledged ones.
    Save(Vec<String>),
    /// Open the socket on this port.
    Bind(u16),
    /// Start the units together: the listener, dispatch, and, if `launch` is
    /// set, the game pointed at `port`.
    Run { port: u16, accept_multiple: bool, launch: bool },
    /// Keep waiting for the units that still run.
    Wait,
    /// Stop: this is the session's result.
    Finish(Result<(), RunError<E>>),
    /// The event does not belong to the current phase; nothing changed.
    Ignored,
}

/// An action, as plain values.
pub enum ActionView<E> {
    Prompt(Seq<char>),
    Save(Seq<Seq<char>>),
    Bind(u16),
    Run { port: u16, accept_multiple: bool, launch: bool },
    Wait,
    Finish(Result<(), RunError<E>>),
    Ignored,
}

impl<E> View for Action<E> {
    type V = ActionView<E>;

    open spec fn view(&self) -> ActionView<E> {
        match *self {
            Action::Prompt(banner) => ActionView::Prompt(banner@),
            Action::Save(names) => ActionView::Save(spec_texts(names@)),
            Action::Bind(port) => ActionView::Bind(port),
            Action::Run { port, accept_multiple, launch } => ActionView::Run {
                port,
                accept_multiple,
                launch,
            },
            Action::Wait => ActionView::Wait,
            Action::Finish(result) => ActionView::Finish(result),
            Action::Ignored => ActionView::Ignored,
        }
    }
}

/// A session, as plain values.
pub struct SessionView {
    pub mode: Mode,
    pub phase: Phase,
    /// The warnings still to be acknowledged, the one on screen first.
    pub pending: Seq<PendingWarningView>,
    /// The names acknowledged so far.
    pub viewed: Seq<Seq<char>>,
    /// The port asked for and, once the socket is open, the port it has.
    pub port: u16,
    /// Whether the listener is running.
    pub listener: bool,
    /// Whether the game is running.
    pub launch: bool,
    /// Whether dispatch is running.
    pub dispatch: bool,
}

/// The state of one relay session.
#[derive(Debug)]
pub struct Session {
    mode: Mode,
    phase: Phase,
    pending: Vec<PendingWarning>,
    viewed: Vec<String>,
    port: u16,
    listener: bool,
    launch: bool,
    dispatch: bool,
}

/// How many units a session has running.
pub open spec fn spec_running_units(s: SessionView) -> nat {
    (if s.listener {
        1nat
    } else {
        0nat
    }) + (if s.launch {
        1nat
    } else {
        0nat
    }) + (if s.dispatch {
        1nat
    } else {
        0nat
    })
}

/// A session that has ended: the state it ended in, with nothing running.
pub open spec fn spec_finished(s: SessionView) -> SessionView {
    SessionView { phase: Phase::Finished, listener: false, launch: false, dispatch: false, ..s }
}

/// The step that ends a session with a failure.
pub open spec fn spec_fail<E>(s: SessionView, error: RunError<E>) -> (SessionView, ActionView<E>) {
    (spec_finished(s), ActionView::Finish(Err(error)))
}

/// The step of the warning gate: prompt for the first warning that is still
/// pending, or save once none is left.
pub open spec fn spec_gate<E>(s: SessionView) -> (SessionView, ActionView<E>) {
    if s.pending.len() > 0 {
        (SessionView { phase: Phase::Prompting, ..s }, ActionView::Prompt(spec_banner(s.pending[0])))
    } else {
        (SessionView { phase: Phase::Saving, ..s }, ActionView::Save(s.viewed))
    }
}

/// The session after the warning on screen was acknowledged: its mod's name
/// joins the acknowledged ones and the warning leaves the pending ones.
pub open spec fn spec_acknowledge(s: SessionView) -> SessionView {
    if s.pending.len() > 0 {
        SessionView {
            pending: s.pending.drop_first(),
            viewed: s.viewed.push(s.pending[0].unique_name),
            ..s
        }
    } else {
        s
    }
}

/// The step after a unit has ended normally: wait while another still runs,
/// finish with success when it was the last.
pub open spec fn spec_unit_ended<E>(s: SessionView) -> (SessionView, ActionView<E>) {
    if s.listener || s.launch || s.dispatch {
        (s, ActionView::Wait)
    } else {
        (spec_finished(s), ActionView::Finish(Ok(())))
    }
}

/// The step that starts the units once the socket is open on `port`.
pub open spec fn spec_run<E>(s: SessionView, port: u16) -> (SessionView, ActionView<E>) {
    (
        SessionView {
            phase: Phase::Running,
            port,
            listener: true,
            launch: s.mode == Mode::Active,
            dispatch: true,
            ..s
        },
        ActionView::Run {
            port,
            accept_multiple: s.mode == Mode::Active,
            launch: s.mode == Mode::Active,
        },
    )
}

/// The session's answer to an event: the state it moves to and the action it
/// asks for. An event that the current phase does not await changes nothing.
pub open spec fn spec_step<E>(s: SessionView, event: Event<E>) -> (SessionView, ActionView<E>) {
    match s.phase {
        Phase::Prompting => match event {
            Event::Acknowledged => spec_gate(spec_acknowledge(s)),
            Event::PromptFailed(e) => spec_fail(s, RunError::IOError(e)),
            _ => (s, ActionView::Ignored),
        },
        Phase::Saving => match event {
            Event::Saved => (SessionView { phase: Phase::Binding, ..s }, ActionView::Bind(s.port)),
            Event::SaveFailed(e) => spec_fail(s, RunError::PersistError(e)),
            _ => (s, ActionView::Ignored),
        },
        Phase::Binding => match event {
            Event::Bound(port) => spec_run(s, port),
            Event::BindFailed(e) => spec_fail(s, RunError::BindError(e)),
            _ => (s, ActionView::Ignored),
        },
        Phase::Running => match event {
            Event::ListenerEnded => if s.listener {
                spec_unit_ended(SessionView { listener: false, ..s })
            } else {
                (s, ActionView::Ignored)
            },
            Event::ListenerFailed(e) => if s.listener {
                spec_fail(s, RunError::IOError(e))
            } else {
                (s, ActionView::Ignored)
            },
            Event::LaunchEnded => if s.launch {
                spec_unit_ended(SessionView { launch: false, ..s })
            } else {
                (s, ActionView::Ignored)
            },
            Event::LaunchFailed(e) => if s.launch {
                spec_fail(s, RunError::LaunchError(e))
            } else {
                (s, ActionView::Ignored)
            },
            Event::DispatchEnded => if s.dispatch {
                spec_unit_ended(SessionView { dispatch: false, ..s })
            } else {
                (s, ActionView::Ignored)
            },
            _ => (s, ActionView::Ignored),
        },
        Phase::Finished => (s, ActionView::Ignored),
    }
}

/// How a passive session starts: by opening the socket.
pub open spec fn spec_start_just_logs<E>(port: u16) -> (SessionView, ActionView<E>) {
    (
        SessionView {
            mode: Mode::Passive,
            phase: Phase::Binding,
            pending: Seq::empty(),
            viewed: Seq::empty(),
            port,
            listener: false,
            launch: false,
            dispatch: false,
        },
        ActionView::Bind(port),
    )
}

/// How an active session starts: at the warning gate, with the warnings of
/// the active mods that the configuration does not hold as acknowledged.
pub open spec fn spec_start_game<E>(
    mods: Seq<ActiveModView>,
    viewed: Seq<Seq<char>>,
    port: u16,
) -> (SessionView, ActionView<E>) {
    spec_gate(
        SessionView {
            mode: Mode::Active,
            phase: Phase::Prompting,
            pending: spec_get_warnings(mods, viewed),
            viewed,
            port,
            listener: false,
            launch: false,
            dispatch: false,
        },
    )
}

impl View for Session {
    type V = SessionView;

    closed spec fn view(&self) -> SessionView {
        SessionView {
            mode: self.mode,
            phase: self.phase,
            pending: spec_pending(self.pending@),
            viewed: spec_texts(self.viewed@),
            port: self.port,
            listener: self.listener,
            launch: self.launch,
            dispatch: self.dispatch,
        }
    }
}

/// Starts a passive session on `port`: listener and dispatch, no game.
pub fn start_just_logs<E>(port: u16) -> (start: (Session, Action<E>))
    ensures
        (start.0@, start.1@) == spec_start_just_logs::<E>(port),
{
    let session = Session {
        mode: Mode::Passive,
        phase: Phase::Binding,
        pending: Vec::new(),
        viewed: Vec::new(),
        port,
        listener: false,
        launch: false,
        dispatch: false,
    };
    assert(spec_pending(session.pending@) =~= Seq::empty());
    assert(spec_texts(session.viewed@) =~= Seq::empty());
    (session, Action::Bind(port))
}

/// Starts an active session: the warnings of `mods` that `viewed_alerts` does
/// not hold are put before the player one by one, then the configuration is
/// saved, and only then the socket is opened and the game launched.
pub fn start_game<E>(mods: &Vec<ActiveMod>, viewed_alerts: &Vec<String>, port: u16) -> (start: (
    Session,
    Action<E>,
))
    ensures
        (start.0@, start.1@) == spec_start_game::<E>(
            spec_mods(mods@),
            spec_texts(viewed_alerts@),
            port,
        ),
{
    let mut session = Session {
        mode: Mode::Active,
        phase: Phase::Prompting,
        pending: get_warnings(mods, viewed_alerts),
        viewed: clone_names(viewed_alerts),
        port,
        listener: false,
        launch: false,
        dispatch: false,
    };
    let action = session.gate();
    (session, action)
}

impl Session {
    /// The way this session runs.
    pub fn mode(&self) -> (mode: Mode)
        ensures
            mode == self@.mode,
    {
        self.mode
    }

    /// Where the session stands.
    pub fn phase(&self) -> (phase: Phase)
        ensures
            phase == self@.phase,
    {
        self.phase
    }

    /// Whether the session is over.
    pub fn is_finished(&self) -> (finished: bool)
        ensures
            finished == (self@.phase == Phase::Finished),
    {
        match self.phase {
            Phase::Finished => true,
            _ => false,
        }
    }

    /// The port asked for, or the port of the socket once it is open.
    pub fn port(&self) -> (port: u16)
        ensures
            port == self@.port,
    {
        self.port
    }

    /// The names acknowledged so far.
    pub fn viewed_alerts(&self) -> (names: &Vec<String>)
        ensures
            spec_texts(names@) == self@.viewed,
    {
        &self.viewed
    }

    /// The warnings still to be acknowledged, the one on screen first.
    pub fn pending(&self) -> (pending: &Vec<PendingWarning>)
        ensures
            spec_pending(pending@) == self@.pending,
    {
        &self.pending
    }

    /// How many units are running.
    pub fn running_units(&self) -> (count: usize)
        ensures
            count == spec_running_units(self@),
    {
        let mut count: usize = 0;
        if self.listener {
            count += 1;
        }
        if self.launch {
            count += 1;
        }
        if self.dispatch {
            count += 1;
        }
        count
    }

    fn gate<E>(&mut self) -> (action: Action<E>)
        ensures
            (final(self)@, action@) == spec_gate::<E>(old(self)@),
    {
        if self.pending.len() > 0 {
            self.phase = Phase::Prompting;
            Action::Prompt(self.pending[0].banner())
        } else {
            self.phase = Phase::Saving;
            Action::Save(clone_names(&self.viewed))
        }
    }

    fn acknowledge(&mut self)
        ensures
            final(self)@ == spec_acknowledge(old(self)@),
    {
        if self.pending.len() > 0 {
            let shown = self.pending.remove(0);
            self.viewed.push(shown.unique_name);
            assert(spec_pending(self.pending@) =~= spec_pending(old(self).pending@).drop_first());
            assert(spec_texts(self.viewed@) =~= spec_texts(old(self).viewed@).push(
                shown.unique_name@,
            ));
        }
    }

    fn fail<E>(&mut self, error: RunError<E>) -> (action: Action<E>)
        ensures
            (final(self)@, action@) == spec_fail(old(self)@, error),
    {
        self.finish();
        Action::Finish(Err(error))
    }

    fn finish(&mut self)
        ensures
            final(self)@ == spec_finished(old(self)@),
    {
        self.phase = Phase::Finished;
        self.listener = false;
        self.launch = false;
        self.dispatch = false;
    }

    fn unit_ended<E>(&mut self) -> (action: Action<E>)
        ensures
            (final(self)@, action@) == spec_unit_ended::<E>(old(self)@),
    {
        if self.listener || self.launch || self.dispatch {
            Action::Wait
        } else {
            self.finish();
            Action::Finish(Ok(()))
        }
    }

    /// Takes one event and answers with the next action.
    ///
    /// A failure reported by the step or unit that the session is waiting on
    /// ends the session at once with that failure, whatever else is still
    /// running. Success is answered only when the last running unit has ended.
    /// An event that the current phase does not await is answered with
    /// [`Action::Ignored`] and changes nothing.
    pub fn step<E>(&mut self, event: Event<E>) -> (action: Action<E>)
        ensures
            (final(self)@, action@) == spec_step(old(self)@, event),
    {
        match self.phase {
            Phase::Prompting => match event {
                Event::Acknowledged => {
                    self.acknowledge();
                    self.gate()
                },
                Event::PromptFailed(e) => self.fail(RunError::IOError(e)),
                _ => Action::Ignored,
            },
            Phase::Saving => match event {
                Event::Saved => {
                    self.phase = Phase::Binding;
                    Action::Bind(self.port)
                },
                Event::SaveFailed(e) => self.fail(RunError::PersistError(e)),
                _ => Action::Ignored,
            },
            Phase::Binding => match event {
                Event::Bound(port) => {
                    let active = match self.mode {
                        Mode::Active => true,
                        Mode::Passive => false,
                    };
                    self.phase = Phase::Running;
                    self.port = port;
                    self.listener = true;
                    self.launch = active;
                    self.dispatch = true;
                    Action::Run { port, accept_multiple: active, launch: active }
                },
                Event::BindFailed(e) => self.fail(RunError::BindError(e)),
                _ => Action::Ignored,
            },
            Phase::Running => match event {
                Event::ListenerEnded => if self.listener {
                    self.listener = false;
                    self.unit_ended()
                } else {
                    Action::Ignored
                },
                Event::ListenerFailed(e) => if self.listener {
                    self.fail(RunError::IOError(e))
                } else {
                    Action::Ignored
                },
                Event::LaunchEnded => if self.launch {
                    self.launch = false;
                    self.unit_ended()
                } else {
                    Action::Ignored
                },
                Event::LaunchFailed(e) => if self.launch {
                    self.fail(RunError::LaunchError(e))
                } else {
                    Action::Ignored
                },
                Event::DispatchEnded => if self.dispatch {
                    self.dispatch = false;
                    self.unit_ended()
                } else {
                    Action::Ignored
                },
                _ => Action::Ignored,
            },
            Phase::Finished => Action::Ignored,
        }
    }
}

/// The session's answers to a run of events, one answer for each event.
pub open spec fn spec_answers<E>(s: SessionView, events: Seq<Event<E>>) -> Seq<ActionView<E>>
    decreases events.len(),
{
    if events.len() == 0 {
        Seq::empty()
    } else {
        seq![spec_step(s, events[0]).1] + spec_answers(
            spec_step(s, events[0]).0,
            events.drop_first(),
        )
    }
}

/// The state a session is in after a run of events.
pub open spec fn spec_after<E>(s: SessionView, events: Seq<Event<E>>) -> SessionView
    decreases events.len(),
{
    if events.len() == 0 {
        s
    } else {
        spec_after(spec_step(s, events[0]).0, events.drop_first())
    }
}

/// A finished session stays finished: it answers every later event with
/// `Ignored`, so it never asks for anything to be started again.
pub proof fn lemma_finished_is_final<E>(s: SessionView, events: Seq<Event<E>>)
    requires
        s.phase == Phase::Finished,
    ensures
        spec_answers(s, events).len() == events.len(),
        forall|k: int|
            0 <= k < events.len() ==> #[trigger] spec_answers(s, events)[k] == ActionView::<
                E,
            >::Ignored,
        spec_after(s, events) == s,
    decreases events.len(),
{
    if events.len() > 0 {
        lemma_finished_is_final(s, events.drop_first());
    }
}

/// The first failure wins: when the step or unit that a session waits on
/// reports a failure, the session's answer is that failure, nothing is left
/// running, and every later event is ignored, whatever the other units would
/// have done.
pub proof fn lemma_first_failure_wins<E>(s: SessionView, events: Seq<Event<E>>)
    requires
        events.len() > 0,
        spec_step(s, events[0]).1 is Finish,
        spec_step(s, events[0]).1->Finish_0 is Err,
    ensures
        spec_answers(s, events).len() == events.len(),
        spec_answers(s, events)[0] == spec_step(s, events[0]).1,
        forall|k: int|
            1 <= k < events.len() ==> #[trigger] spec_answers(s, events)[k] == ActionView::<
                E,
            >::Ignored,
        spec_after(s, events) == spec_finished(s),
        !spec_after(s, events).listener,
        !spec_after(s, events).launch,
        !spec_after(s, events).dispatch,
{
    let next = spec_step(s, events[0]).0;
    let rest = events.drop_first();
    lemma_finished_is_final(next, rest);
    assert forall|k: int| 1 <= k < events.len() implies #[trigger] spec_answers(s, events)[k]
        == ActionView::<E>::Ignored by {
        assert(spec_answers(s, events)[k] == spec_answers(next, rest)[k - 1]);
    }
}

/// A socket that cannot be opened ends the session with that error before
/// anything was started: the answer to the failure is `BindError`, no
/// answer ever asks for the units to run, and so nothing reaches the queue.
pub proof fn lemma_bind_failure_ends_session<E>(s: SessionView, error: E, events: Seq<Event<E>>)
    requires
        s.phase == Phase::Binding,
        events.len() > 0,
        events[0] == Event::BindFailed(error),
    ensures
        spec_answers(s, events)[0] == ActionView::Finish(Err(RunError::BindError(error))),
        forall|k: int|
            0 <= k < events.len() ==> !(#[trigger] spec_answers(s, events)[k] is Run),
        spec_after(s, events).phase == Phase::Finished,
        !spec_after(s, events).listener,
        !spec_after(s, events).dispatch,
{
    lemma_first_failure_wins(s, events);
    assert forall|k: int| 0 <= k < events.len() implies !(#[trigger] spec_answers(s, events)[k]
        is Run) by {
        if k >= 1 {
            assert(spec_answers(s, events)[k] == ActionView::<E>::Ignored);
        }
    }
}

/// In an active session a launch that fails at once decides the result: the
/// units are started together, the failure is answered with `LaunchError`,
/// and what listener and dispatch do afterwards is ignored.
pub proof fn lemma_launch_failure_wins<E>(
    s: SessionView,
    port: u16,
    error: E,
    events: Seq<Event<E>>,
)
    requires
        s.phase == Phase::Binding,
        s.mode == Mode::Active,
        events.len() >= 2,
        events[0] == Event::<E>::Bound(port),
        events[1] == Event::LaunchFailed(error),
    ensures
        spec_answers(s, events)[0] == (ActionView::<E>::Run {
            port,
            accept_multiple: true,
            launch: true,
        }),
        spec_answers(s, events)[1] == ActionView::Finish(Err(RunError::LaunchError(error))),
        forall|k: int|
            2 <= k < events.len() ==> #[trigger] spec_answers(s, events)[k] == ActionView::<
                E,
            >::Ignored,
        spec_after(s, events).phase == Phase::Finished,
{
    let running = spec_step(s, events[0]).0;
    let rest = events.drop_first();
    assert(rest[0] == events[1]);
    lemma_first_failure_wins(running, rest);
    assert(spec_answers(s, events)[1] == spec_answers(running, rest)[0]);
    assert forall|k: int| 2 <= k < events.len() implies #[trigger] spec_answers(s, events)[k]
        == ActionView::<E>::Ignored by {
        assert(spec_answers(s, events)[k] == spec_answers(running, rest)[k - 1]);
    }
}

/// Success is answered only for the end of the last running unit: the
/// session was running, the event is the normal end of a unit that ran, and
/// no other unit was running any more.
pub proof fn lemma_success_needs_every_unit<E>(s: SessionView, event: Event<E>)
    requires
        spec_step(s, event).1 == ActionView::<E>::Finish(Ok(())),
    ensures
        s.phase == Phase::Running,
        event is ListenerEnded && s.listener && !s.launch && !s.dispatch || event is LaunchEnded
            && !s.listener && s.launch && !s.dispatch || event is DispatchEnded && !s.listener
            && !s.launch && s.dispatch,
{
}

/// The warning gate shows each pending warning once, in order, and then asks
/// for the save: while the player acknowledges, the answers are the banners
/// of the warnings that follow the one on screen, and the answer to the last
/// acknowledgement is to save the earlier names followed by the mod of every
/// warning shown.
pub proof fn lemma_gate_prompts_each_once<E>(s: SessionView, events: Seq<Event<E>>)
    requires
        s.phase == Phase::Prompting,
        s.pending.len() > 0,
        events.len() == s.pending.len(),
        forall|k: int| 0 <= k < events.len() ==> #[trigger] events[k] == Event::<E>::Acknowledged,
    ensures
        spec_answers(s, events).len() == events.len(),
        forall|k: int|
            0 <= k < events.len() - 1 ==> #[trigger] spec_answers(s, events)[k]
                == ActionView::<E>::Prompt(spec_banner(s.pending[k + 1])),
        spec_answers(s, events)[events.len() - 1] == ActionView::<E>::Save(
            spec_acknowledge_all(s.viewed, s.pending),
        ),
        spec_after(s, events).phase == Phase::Saving,
        spec_after(s, events).viewed == spec_acknowledge_all(s.viewed, s.pending),
    decreases events.len(),
{
    let next = spec_step(s, events[0]).0;
    let rest = events.drop_first();
    let answers = spec_answers(s, events);
    assert(events[0] == Event::<E>::Acknowledged);
    assert(rest.len() == events.len() - 1);
    assert(spec_after(s, events) == spec_after(next, rest));
    if s.pending.len() == 1 {
        assert(spec_after(next, rest) == next);
        assert(spec_answers(next, rest).len() == 0);
        assert(spec_acknowledge_all(s.viewed, s.pending) =~= s.viewed.push(
            s.pending[0].unique_name,
        ));
    } else {
        assert forall|k: int| 0 <= k < rest.len() implies #[trigger] rest[k] == Event::<
            E,
        >::Acknowledged by {
            assert(rest[k] == events[k + 1]);
        }
        lemma_gate_prompts_each_once(next, rest);
        assert(spec_acknowledge_all(next.viewed, next.pending) =~= spec_acknowledge_all(
            s.viewed,
            s.pending,
        ));
        assert forall|k: int| 0 <= k < events.len() - 1 implies #[trigger] answers[k]
            == ActionView::<E>::Prompt(spec_banner(s.pending[k + 1])) by {
            if k >= 1 {
                assert(answers[k] == spec_answers(next, rest)[k - 1]);
                assert(next.pending[k] == s.pending[k + 1]);
            }
        }
        assert(answers[events.len() - 1] == spec_answers(next, rest)[rest.len() - 1]);
    }
}

/// A session started again with what the last one saved prompts for
/// nothing: with every warning of the mods acknowledged, the first action is
/// the save, of the same names.
pub proof fn lemma_saved_run_prompts_nothing<E>(
    mods: Seq<ActiveModView>,
    viewed: Seq<Seq<char>>,
    port: u16,
)
    ensures
        spec_start_game::<E>(
            mods,
            spec_acknowledge_all(viewed, spec_get_warnings(mods, viewed)),
            port,
        ).1 == ActionView::<E>::Save(
            spec_acknowledge_all(viewed, spec_get_warnings(mods, viewed)),
        ),
        spec_start_game::<E>(
            mods,
            spec_acknowledge_all(viewed, spec_get_warnings(mods, viewed)),
            port,
        ).0.phase == Phase::Saving,
{
    lemma_gate_is_idempotent(mods, viewed);
}

} // verus!
