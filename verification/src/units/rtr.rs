//! The RTR client unit.

use crate::comms::{Gate, GateMetrics, GateStatus, Terminated, UnitStatus};
use crate::metrics;
use crate::payload::{
    apply_diff, share, Action, DiffBuilder, Payload, PayloadSet, SetBuilder, Update, UpdateView,
    VrpError,
};
use crate::session::{serial_add, serial_after};
use rpki_rtr::state::State;
use std::sync::Arc;
use vstd::prelude::*;

verus! {

/// Where the unit stands between connecting, streaming and waiting.
#[derive(Clone, Copy, Debug, PartialEq, Eq, Structural)]
pub enum Phase {
    /// The unit has not started yet.
    Disconnected,
    /// The transport is being connected.
    Connecting,
    /// A session is up and delivers cycles.
    Streaming,
    /// The unit waits before it connects again. `since` is the reading
    /// of the clock at which the wait began.
    RetryWait { since: u128 },
    /// The unit has ended. Nothing leads out of this phase.
    Terminated,
}

/// How bad an error of the session is.
#[derive(Clone, Copy, Debug, PartialEq, Eq, Structural)]
pub enum ErrorKind {
    /// The session is lost; a new one may do better.
    Recoverable,
    /// The unit cannot go on.
    Fatal,
}

/// What happened outside the unit.
pub enum Event {
    /// The unit is started.
    Start,
    /// The control channel handed over a status.
    Status(GateStatus),
    /// The control channel told the unit to end.
    Terminate,
    /// The transport is connected.
    Connected,
    /// The transport could not be connected.
    ConnectFailed,
    /// The session finished a cycle. `session` is its state afterwards.
    Cycle { update: TargetUpdate, session: Option<State> },
    /// The peer closed the session, or the transport broke.
    Closed,
    /// The session ran into an error.
    Failed(ErrorKind),
    /// The timer of the wait went off.
    Tick,
}

/// What an [`Event`] stands for.
pub enum EventView {
    Start,
    Status(GateStatus),
    Terminate,
    Connected,
    ConnectFailed,
    Cycle { update: TargetUpdateView, session: Option<State> },
    Closed,
    Failed(ErrorKind),
    Tick,
}

impl View for Event {
    type V = EventView;

    open spec fn view(&self) -> EventView {
        match *self {
            Event::Start => EventView::Start,
            Event::Status(status) => EventView::Status(status),
            Event::Terminate => EventView::Terminate,
            Event::Connected => EventView::Connected,
            Event::ConnectFailed => EventView::ConnectFailed,
            Event::Cycle { update, session } => EventView::Cycle { update: update@, session },
            Event::Closed => EventView::Closed,
            Event::Failed(kind) => EventView::Failed(kind),
            Event::Tick => EventView::Tick,
        }
    }
}

/// What the caller is to do next.
#[derive(Clone, Copy, Debug, PartialEq, Eq, Structural)]
pub enum Next {
    /// Connect the transport to the remote.
    Connect,
    /// Ask the session for its next cycle.
    Update,
    /// Wait for `left` nanoseconds, then send [`Event::Tick`].
    Wait { left: u128 },
    /// Go on with the operation that is pending, untouched, and ask the
    /// control channel again.
    Continue,
    /// End the unit.
    Stop,
}

/// The answer to an event: what to tell the pipeline, and what to do.
pub struct Command {
    /// The status to report to the pipeline, if it changed.
    pub status: Option<UnitStatus>,
    /// The update to publish, if the event brought one.
    pub publish: Option<Update>,
    /// What to do after that.
    pub next: Next,
}

/// What a [`Command`] stands for.
pub struct CommandView {
    pub status: Option<UnitStatus>,
    pub publish: Option<UpdateView>,
    pub next: Next,
}

impl View for Command {
    type V = CommandView;

    open spec fn view(&self) -> CommandView {
        CommandView {
            status: self.status,
            publish: match self.publish {
                Some(update) => Some(update@),
                None => None,
            },
            next: self.next,
        }
    }
}

/// What a [`Target`] stands for.
pub struct TargetView {
    pub current: Set<Payload>,
    pub state: Option<State>,
    pub name: Seq<char>,
}

/// Where the data of a session ends up: the set that was published last
/// and the state of the session that gave it.
pub struct Target {
    current: Arc<PayloadSet>,
    state: Option<State>,
    name: Arc<str>,
}

impl View for Target {
    type V = TargetView;

    closed spec fn view(&self) -> TargetView {
        TargetView { current: self.current@, state: self.state, name: self.name@ }
    }
}

impl Target {
    /// A target for the unit `name`: it holds no records and no session.
    pub fn new(name: Arc<str>) -> (r: Target)
        ensures
            r@.current == Set::<Payload>::empty(),
            r@.state is None,
            r@.name == name@,
    {
        Target { current: Arc::new(PayloadSet::new()), state: None, name }
    }

    /// The name of the unit.
    pub fn name(&self) -> (r: &Arc<str>)
        ensures
            r@ == self@.name,
    {
        &self.name
    }

    /// The set that was published last.
    pub fn current(&self) -> (r: Arc<PayloadSet>)
        ensures
            r@ == self@.current,
    {
        share(&self.current)
    }

    /// The state of the last session, for the next one to resume from.
    pub fn state(&self) -> (r: Option<State>)
        ensures
            r == self@.state,
    {
        self.state
    }

    /// Starts the update of one cycle. A reset cycle starts from nothing
    /// and has no diff; any other starts from a copy of the current set,
    /// with a diff that has no entries yet. The target stays as it is.
    pub fn start(&mut self, reset: bool) -> (r: TargetUpdate)
        ensures
            r@ == started(old(self)@.current, reset),
            *final(self) == *old(self),
    {
        if reset {
            TargetUpdate { set: SetBuilder::new(), diff: None }
        } else {
            TargetUpdate { set: self.current.to_builder(), diff: Some(DiffBuilder::new()) }
        }
    }
}

/// What a [`TargetUpdate`] stands for: the records it holds and, in a
/// cycle that is no reset, the actions taken so far.
pub struct TargetUpdateView {
    pub set: Set<Payload>,
    pub diff: Option<Seq<(Action, Payload)>>,
}

/// The update that a cycle starts with, over the set `current`.
pub open spec fn started(current: Set<Payload>, reset: bool) -> TargetUpdateView {
    if reset {
        TargetUpdateView { set: Set::empty(), diff: None }
    } else {
        TargetUpdateView { set: current, diff: Some(Seq::empty()) }
    }
}

/// What one record does to an update: the update after it, or the reason
/// why the record is refused. A refused record changes nothing.
pub open spec fn pushed(update: TargetUpdateView, action: Action, payload: Payload) -> Result<
    TargetUpdateView,
    VrpError,
> {
    match update.diff {
        Some(diff) => match action {
            Action::Announce => if update.set.contains(payload) {
                Err(VrpError::DuplicateAnnounce)
            } else {
                Ok(
                    TargetUpdateView {
                        set: update.set.insert(payload),
                        diff: Some(diff.push((action, payload))),
                    },
                )
            },
            Action::Withdraw => if update.set.contains(payload) {
                Ok(
                    TargetUpdateView {
                        set: update.set.remove(payload),
                        diff: Some(diff.push((action, payload))),
                    },
                )
            } else {
                Err(VrpError::UnknownWithdraw)
            },
        },
        None => match action {
            Action::Withdraw => Err(VrpError::Corrupt),
            Action::Announce => if update.set.contains(payload) {
                Err(VrpError::DuplicateAnnounce)
            } else {
                Ok(TargetUpdateView { set: update.set.insert(payload), diff: None })
            },
        },
    }
}

/// The data of one cycle while the session delivers it.
pub struct TargetUpdate {
    /// The new data set.
    set: SetBuilder,
    /// The diff. Without one the cycle is a reset.
    diff: Option<DiffBuilder>,
}

impl View for TargetUpdate {
    type V = TargetUpdateView;

    closed spec fn view(&self) -> TargetUpdateView {
        TargetUpdateView {
            set: self.set@,
            diff: match self.diff {
                Some(diff) => Some(diff@),
                None => None,
            },
        }
    }
}

impl TargetUpdate {
    /// Whether the cycle is known to have changed nothing: it has a diff,
    /// and the diff has no entries. A reset is never empty in this sense.
    pub fn is_definitely_empty(&self) -> (r: bool)
        ensures
            r == definitely_empty(self@),
    {
        if let Some(diff) = self.diff.as_ref() {
            diff.is_empty()
        } else {
            false
        }
    }

    /// Closes the cycle: the update to publish under `serial`.
    pub fn into_update(self, serial: u32) -> (r: Update)
        ensures
            r@.serial == serial,
            r@.set == self@.set,
            r@.diff == self@.diff,
    {
        let set = Arc::new(self.set.finalize());
        let diff = match self.diff {
            Some(diff) => Some(Arc::new(diff.finalize())),
            None => None,
        };
        Update::new(serial, set, diff)
    }

    /// Takes one record of the cycle.
    ///
    /// In a cycle with a diff the action is carried out on the set and
    /// then noted in the diff. A reset only takes announcements. Whatever
    /// is refused leaves the update as it was.
    pub fn push_vrp(&mut self, action: Action, payload: Payload) -> (r: Result<(), VrpError>)
        ensures
            match pushed(old(self)@, action, payload) {
                Ok(after) => r == Ok::<(), VrpError>(()) && final(self)@ == after,
                Err(error) => r == Err::<(), VrpError>(error) && final(self)@ == old(self)@,
            },
            final(self)@.diff is Some <==> old(self)@.diff is Some,
            old(self)@.diff is None && action == Action::Withdraw ==> r == Err::<(), VrpError>(
                VrpError::Corrupt,
            ) && final(self)@ == old(self)@,
            old(self)@.diff is Some && action == Action::Withdraw && !old(self)@.set.contains(
                payload,
            ) ==> r == Err::<(), VrpError>(VrpError::UnknownWithdraw) && final(self)@ == old(
                self,
            )@,
    {
        match self.diff {
            Some(ref mut diff) => {
                match action {
                    Action::Announce => {
                        match self.set.insert(payload) {
                            Ok(()) => {},
                            Err(error) => {
                                return Err(error);
                            },
                        }
                    },
                    Action::Withdraw => {
                        match self.set.remove(&payload) {
                            Ok(()) => {},
                            Err(error) => {
                                return Err(error);
                            },
                        }
                    },
                }
                diff.push(payload, action);
                Ok(())
            },
            None => {
                if action == Action::Withdraw {
                    Err(VrpError::Corrupt)
                } else {
                    self.set.insert(payload)
                }
            },
        }
    }
}

/// Whether an update is known to have changed nothing.
pub open spec fn definitely_empty(update: TargetUpdateView) -> bool {
    update.diff matches Some(diff) && diff.len() == 0
}

/// The update after all of `events` were pushed in turn, if none of them
/// was refused.
pub open spec fn pushed_all(update: TargetUpdateView, events: Seq<(Action, Payload)>) -> Option<
    TargetUpdateView,
>
    decreases events.len(),
{
    if events.len() == 0 {
        Some(update)
    } else {
        match pushed_all(update, events.drop_last()) {
            Some(before) => match pushed(before, events.last().0, events.last().1) {
                Ok(after) => Some(after),
                Err(_) => None,
            },
            None => None,
        }
    }
}

/// A cycle that is no reset and takes all of `events`, in whatever order
/// announcements and withdrawals come, ends with the set that the diff
/// makes of `current`, entry by entry, and with a diff that is exactly
/// the events as they came.
pub proof fn lemma_incremental_cycle(current: Set<Payload>, events: Seq<(Action, Payload)>)
    ensures
        pushed_all(started(current, false), events) matches Some(update) ==> update.set
            == apply_diff(current, events) && update.diff == Some(events),
    decreases events.len(),
{
    if events.len() == 0 {
        assert(events =~= Seq::empty());
    } else {
        let front = events.drop_last();
        lemma_incremental_cycle(current, front);
        if let Some(before) = pushed_all(started(current, false), front) {
            if let Ok(after) = pushed(before, events.last().0, events.last().1) {
                assert(front.push(events.last()) =~= events);
            }
        }
    }
}

/// A reset cycle that takes all of `events` ends without a diff, and
/// none of the events was a withdrawal.
pub proof fn lemma_reset_cycle(current: Set<Payload>, events: Seq<(Action, Payload)>)
    ensures
        pushed_all(started(current, true), events) matches Some(update) ==> update.diff is None
            && update.set == apply_diff(Set::empty(), events) && forall|i: int|
            0 <= i < events.len() ==> (#[trigger] events[i]).0 == Action::Announce,
    decreases events.len(),
{
    if events.len() > 0 {
        let front = events.drop_last();
        lemma_reset_cycle(current, front);
        if let Some(before) = pushed_all(started(current, true), front) {
            if let Ok(after) = pushed(before, events.last().0, events.last().1) {
                assert forall|i: int| 0 <= i < events.len() implies (#[trigger] events[i]).0
                    == Action::Announce by {
                    if i < front.len() {
                        assert(events[i] == front[i]);
                    }
                }
            }
        }
    }
}

/// What a [`Tcp`] stands for.
pub struct TcpView {
    pub remote: Seq<char>,
    pub retry: u64,
    pub status: GateStatus,
    pub serial: u32,
    pub phase: Phase,
}

/// Where the unit and its target stand after an event, and the answer
/// to the event.
pub struct Outcome {
    pub tcp: TcpView,
    pub target: TargetView,
    pub command: CommandView,
}

/// How long a wait lasts, in nanoseconds.
pub open spec fn wait_length(retry: u64) -> int {
    retry * 1_000_000_000
}

/// How long a wait that began at `since` has lasted at `now`, in
/// nanoseconds. A clock that ran backwards counts as standing still.
pub open spec fn waited(since: u128, now: u128) -> int {
    if now >= since {
        now - since
    } else {
        0
    }
}

/// Nothing changes, and what is pending goes on.
pub open spec fn ignored(tcp: TcpView, target: TargetView) -> Outcome {
    Outcome {
        tcp,
        target,
        command: CommandView { status: None, publish: None, next: Next::Continue },
    }
}

/// The unit ends.
pub open spec fn stopped(tcp: TcpView, target: TargetView) -> Outcome {
    Outcome {
        tcp: TcpView { phase: Phase::Terminated, ..tcp },
        target,
        command: CommandView { status: None, publish: None, next: Next::Stop },
    }
}

/// The unit notes the status of its gate; what is pending goes on.
pub open spec fn noted(tcp: TcpView, target: TargetView, status: GateStatus) -> Outcome {
    Outcome {
        tcp: TcpView { status, ..tcp },
        target,
        command: CommandView { status: None, publish: None, next: Next::Continue },
    }
}

/// The unit lost or did not get its session at `now`: it reports that it
/// stalls and waits for the whole retry interval.
pub open spec fn stalled(tcp: TcpView, target: TargetView, now: u128) -> Outcome {
    Outcome {
        tcp: TcpView { phase: Phase::RetryWait { since: now }, ..tcp },
        target,
        command: CommandView {
            status: Some(UnitStatus::Stalled),
            publish: None,
            next: Next::Wait { left: wait_length(tcp.retry) as u128 },
        },
    }
}

/// The end of a cycle. An update that is known to be empty is dropped.
/// Any other gets the next serial, becomes the current set and is
/// published. Either way the unit asks for the next cycle.
pub open spec fn finalized(
    tcp: TcpView,
    target: TargetView,
    update: TargetUpdateView,
    session: Option<State>,
) -> Outcome {
    if definitely_empty(update) {
        Outcome {
            tcp,
            target: TargetView { state: session, ..target },
            command: CommandView { status: None, publish: None, next: Next::Update },
        }
    } else {
        let serial = serial_after(tcp.serial, 1);
        Outcome {
            tcp: TcpView { serial, ..tcp },
            target: TargetView { current: update.set, state: session, ..target },
            command: CommandView {
                status: None,
                publish: Some(UpdateView { serial, set: update.set, diff: update.diff }),
                next: Next::Update,
            },
        }
    }
}

/// What an event does to a unit that is connecting.
pub open spec fn connecting(tcp: TcpView, target: TargetView, now: u128, event: EventView)
    -> Outcome {
    match event {
        EventView::Connected => Outcome {
            tcp: TcpView { phase: Phase::Streaming, ..tcp },
            target,
            command: CommandView {
                status: Some(UnitStatus::Healthy),
                publish: None,
                next: Next::Update,
            },
        },
        EventView::ConnectFailed => stalled(tcp, target, now),
        EventView::Status(status) => noted(tcp, target, status),
        EventView::Terminate => stopped(tcp, target),
        _ => ignored(tcp, target),
    }
}

/// What an event does to a unit that is streaming.
pub open spec fn streaming(tcp: TcpView, target: TargetView, now: u128, event: EventView)
    -> Outcome {
    match event {
        EventView::Cycle { update, session } => finalized(tcp, target, update, session),
        EventView::Closed => stalled(tcp, target, now),
        EventView::Failed(ErrorKind::Recoverable) => stalled(
            tcp,
            TargetView { state: None, ..target },
            now,
        ),
        EventView::Failed(ErrorKind::Fatal) => stopped(tcp, target),
        EventView::Status(status) => noted(tcp, target, status),
        EventView::Terminate => stopped(tcp, target),
        _ => ignored(tcp, target),
    }
}

/// What an event does to a unit that has been waiting since `since`.
pub open spec fn waiting(
    tcp: TcpView,
    target: TargetView,
    since: u128,
    now: u128,
    event: EventView,
) -> Outcome {
    match event {
        EventView::Tick => if waited(since, now) >= wait_length(tcp.retry) {
            Outcome {
                tcp: TcpView { phase: Phase::Connecting, ..tcp },
                target,
                command: CommandView { status: None, publish: None, next: Next::Connect },
            }
        } else {
            Outcome {
                tcp,
                target,
                command: CommandView {
                    status: None,
                    publish: None,
                    next: Next::Wait {
                        left: (wait_length(tcp.retry) - waited(since, now)) as u128,
                    },
                },
            }
        },
        EventView::Status(status) => noted(tcp, target, status),
        EventView::Terminate => stopped(tcp, target),
        _ => ignored(tcp, target),
    }
}

/// What an event does to the unit, whatever its phase. An event that has
/// no meaning in the phase is ignored.
pub open spec fn step(tcp: TcpView, target: TargetView, now: u128, event: EventView) -> Outcome {
    match tcp.phase {
        Phase::Disconnected => match event {
            EventView::Start => Outcome {
                tcp: TcpView { phase: Phase::Connecting, ..tcp },
                target,
                command: CommandView {
                    status: Some(UnitStatus::Stalled),
                    publish: None,
                    next: Next::Connect,
                },
            },
            EventView::Status(status) => noted(tcp, target, status),
            EventView::Terminate => stopped(tcp, target),
            _ => ignored(tcp, target),
        },
        Phase::Connecting => connecting(tcp, target, now, event),
        Phase::Streaming => streaming(tcp, target, now, event),
        Phase::RetryWait { since } => waiting(tcp, target, since, now, event),
        Phase::Terminated => stopped(tcp, target),
    }
}

/// The event that an answer of the control channel amounts to.
pub open spec fn polled_event(polled: Result<GateStatus, Terminated>) -> EventView {
    match polled {
        Ok(status) => EventView::Status(status),
        Err(_) => EventView::Terminate,
    }
}

/// An RTR client over a plain TCP connection: the part that decides.
///
/// The unit is driven from outside. The caller connects, reads, waits
/// and polls the control channel; it tells the unit what happened, one
/// event at a time, and does what the unit answers.
pub struct Tcp {
    /// The remote address to connect to.
    remote: String,
    /// How long to wait before connecting again, in seconds.
    retry: u64,
    /// Our gate status.
    status: GateStatus,
    /// Our current serial.
    serial: u32,
    /// Where the unit stands.
    phase: Phase,
}

impl View for Tcp {
    type V = TcpView;

    closed spec fn view(&self) -> TcpView {
        TcpView {
            remote: self.remote@,
            retry: self.retry,
            status: self.status,
            serial: self.serial,
            phase: self.phase,
        }
    }
}

impl Tcp {
    /// A unit for `remote` that has not started: its gate counts as
    /// active and the serial is zero.
    pub fn new(remote: String, retry: u64) -> (r: Tcp)
        ensures
            r@ == (TcpView {
                remote: remote@,
                retry,
                status: GateStatus::Active,
                serial: 0,
                phase: Phase::Disconnected,
            }),
    {
        Tcp { remote, retry, status: GateStatus::Active, serial: 0, phase: Phase::Disconnected }
    }

    /// The retry interval of a unit that was given none, in seconds.
    pub fn default_retry() -> (r: u64)
        ensures
            r == 60,
    {
        60
    }

    /// The remote address.
    pub fn remote(&self) -> (r: &String)
        ensures
            r@ == self@.remote,
    {
        &self.remote
    }

    /// The retry interval in seconds.
    pub fn retry(&self) -> (r: u64)
        ensures
            r == self@.retry,
    {
        self.retry
    }

    /// The status of its gate as the unit saw it last.
    pub fn status(&self) -> (r: GateStatus)
        ensures
            r == self@.status,
    {
        self.status
    }

    /// The serial of the update that was published last.
    pub fn serial(&self) -> (r: u32)
        ensures
            r == self@.serial,
    {
        self.serial
    }

    /// Where the unit stands.
    pub fn phase(&self) -> (r: Phase)
        ensures
            r == self@.phase,
    {
        self.phase
    }

    /// Takes one event, at the clock reading `now` in nanoseconds, and
    /// says what to do about it.
    pub fn run(&mut self, target: &mut Target, now: u128, event: Event) -> (r: Command)
        ensures
            step(old(self)@, old(target)@, now, event@) == (Outcome {
                tcp: final(self)@,
                target: final(target)@,
                command: r@,
            }),
    {
        match self.phase {
            Phase::Disconnected => match event {
                Event::Start => {
                    self.phase = Phase::Connecting;
                    Command {
                        status: Some(UnitStatus::Stalled),
                        publish: None,
                        next: Next::Connect,
                    }
                },
                Event::Status(status) => self.note(status),
                Event::Terminate => self.stop(),
                _ => Command { status: None, publish: None, next: Next::Continue },
            },
            Phase::Connecting => self.connect(target, now, event),
            Phase::Streaming => self.update(target, now, event),
            Phase::RetryWait { since } => self.retry_wait(target, since, now, event),
            Phase::Terminated => self.stop(),
        }
    }

    /// Takes an answer of the control channel while something else is
    /// pending: a status is noted and what is pending goes on, being told
    /// to end ends the unit. This is [`Tcp::run`] on the event that the
    /// answer amounts to; it needs neither the target nor the clock.
    pub fn control(&mut self, polled: Result<GateStatus, Terminated>) -> (r: Next)
        ensures
            r == Next::Continue || r == Next::Stop,
            forall|target: TargetView, now: u128| #[trigger]
                step(old(self)@, target, now, polled_event(polled)) == (Outcome {
                    tcp: final(self)@,
                    target,
                    command: CommandView { status: None, publish: None, next: r },
                }),
    {
        if self.phase == Phase::Terminated {
            return self.stop().next;
        }
        match polled {
            Ok(status) => self.note(status).next,
            Err(_) => self.stop().next,
        }
    }

    /// Notes the status of its gate.
    fn note(&mut self, status: GateStatus) -> (r: Command)
        ensures
            final(self)@ == (TcpView { status, ..old(self)@ }),
            r@ == (CommandView { status: None, publish: None, next: Next::Continue }),
    {
        self.status = status;
        Command { status: None, publish: None, next: Next::Continue }
    }

    /// Ends the unit.
    fn stop(&mut self) -> (r: Command)
        ensures
            final(self)@ == (TcpView { phase: Phase::Terminated, ..old(self)@ }),
            r@ == (CommandView { status: None, publish: None, next: Next::Stop }),
    {
        self.phase = Phase::Terminated;
        Command { status: None, publish: None, next: Next::Stop }
    }

    /// Begins a wait at `now`.
    fn stall(&mut self, now: u128) -> (r: Command)
        ensures
            final(self)@ == (TcpView { phase: Phase::RetryWait { since: now }, ..old(self)@ }),
            r@ == (CommandView {
                status: Some(UnitStatus::Stalled),
                publish: None,
                next: Next::Wait { left: wait_length(old(self)@.retry) as u128 },
            }),
    {
        self.phase = Phase::RetryWait { since: now };
        let left: u128 = (self.retry as u128) * 1_000_000_000u128;
        Command { status: Some(UnitStatus::Stalled), publish: None, next: Next::Wait { left } }
    }

    /// Takes an event while the transport is being connected.
    fn connect(&mut self, target: &mut Target, now: u128, event: Event) -> (r: Command)
        requires
            old(self)@.phase == Phase::Connecting,
        ensures
            connecting(old(self)@, old(target)@, now, event@) == (Outcome {
                tcp: final(self)@,
                target: final(target)@,
                command: r@,
            }),
    {
        match event {
            Event::Connected => {
                self.phase = Phase::Streaming;
                Command { status: Some(UnitStatus::Healthy), publish: None, next: Next::Update }
            },
            Event::ConnectFailed => self.stall(now),
            Event::Status(status) => self.note(status),
            Event::Terminate => self.stop(),
            _ => Command { status: None, publish: None, next: Next::Continue },
        }
    }

    /// Takes an event while the session is up.
    fn update(&mut self, target: &mut Target, now: u128, event: Event) -> (r: Command)
        requires
            old(self)@.phase == Phase::Streaming,
        ensures
            streaming(old(self)@, old(target)@, now, event@) == (Outcome {
                tcp: final(self)@,
                target: final(target)@,
                command: r@,
            }),
    {
        match event {
            Event::Cycle { update, session } => {
                let publish = self.finalize(target, update);
                target.state = session;
                Command { status: None, publish, next: Next::Update }
            },
            Event::Closed => self.stall(now),
            Event::Failed(ErrorKind::Recoverable) => {
                target.state = None;
                self.stall(now)
            },
            Event::Failed(ErrorKind::Fatal) => self.stop(),
            Event::Status(status) => self.note(status),
            Event::Terminate => self.stop(),
            _ => Command { status: None, publish: None, next: Next::Continue },
        }
    }

    /// Takes an event while the unit waits to connect again.
    fn retry_wait(&mut self, target: &mut Target, since: u128, now: u128, event: Event) -> (r:
        Command)
        requires
            old(self)@.phase == (Phase::RetryWait { since }),
        ensures
            waiting(old(self)@, old(target)@, since, now, event@) == (Outcome {
                tcp: final(self)@,
                target: final(target)@,
                command: r@,
            }),
    {
        match event {
            Event::Tick => {
                let length: u128 = (self.retry as u128) * 1_000_000_000u128;
                let waited: u128 = if now >= since {
                    now - since
                } else {
                    0
                };
                if waited >= length {
                    self.phase = Phase::Connecting;
                    Command { status: None, publish: None, next: Next::Connect }
                } else {
                    Command {
                        status: None,
                        publish: None,
                        next: Next::Wait { left: length - waited },
                    }
                }
            },
            Event::Status(status) => self.note(status),
            Event::Terminate => self.stop(),
            _ => Command { status: None, publish: None, next: Next::Continue },
        }
    }

    /// Closes a cycle. An update that is known to be empty is dropped:
    /// nothing is published and nothing changes. Any other update gets
    /// the serial after the current one, its set becomes the current set
    /// of the target, and it is handed back for publishing.
    pub fn finalize(&mut self, target: &mut Target, update: TargetUpdate) -> (r: Option<Update>)
        ensures
            match r {
                None => definitely_empty(update@) && final(self)@ == old(self)@ && final(target)@
                    == old(target)@,
                Some(published) => !definitely_empty(update@) && published@ == (UpdateView {
                    serial: serial_after(old(self)@.serial, 1),
                    set: update@.set,
                    diff: update@.diff,
                }) && final(self)@ == (TcpView { serial: published@.serial, ..old(self)@ })
                    && final(target)@ == (TargetView { current: update@.set, ..old(target)@ }),
            },
    {
        if update.is_definitely_empty() {
            None
        } else {
            self.serial = serial_add(self.serial, 1);
            let update = update.into_update(self.serial);
            target.current = update.set();
            Some(update)
        }
    }
}

/// A reset cycle that the session finishes while the unit streams is
/// published, and without a diff: also one that announced nothing.
pub proof fn lemma_reset_is_published(
    tcp: TcpView,
    target: TargetView,
    now: u128,
    events: Seq<(Action, Payload)>,
    session: Option<State>,
)
    requires
        tcp.phase == Phase::Streaming,
        pushed_all(started(target.current, true), events) is Some,
    ensures
        ({
            let update = pushed_all(started(target.current, true), events)->0;
            let after = step(tcp, target, now, EventView::Cycle { update, session });
            after.command.publish == Some(
                UpdateView { serial: serial_after(tcp.serial, 1), set: update.set, diff: None },
            )
        }),
{
    lemma_reset_cycle(target.current, events);
}

/// A cycle that is no reset and ends with an empty diff is not
/// published; the serial and the current set stay as they were.
pub proof fn lemma_empty_cycle_is_dropped(
    tcp: TcpView,
    target: TargetView,
    now: u128,
    update: TargetUpdateView,
    session: Option<State>,
)
    requires
        update.diff == Some(Seq::<(Action, Payload)>::empty()),
    ensures
        ({
            let after = step(tcp, target, now, EventView::Cycle { update, session });
            &&& after.command.publish is None
            &&& after.tcp.serial == tcp.serial
            &&& after.target.current == target.current
        }),
{
}

/// The serial moves with the publications and with nothing else: an
/// event that publishes an update gives it the serial that follows the
/// current one, and every other event leaves the serial alone.
pub proof fn lemma_serial_follows_publications(
    tcp: TcpView,
    target: TargetView,
    now: u128,
    event: EventView,
)
    ensures
        ({
            let after = step(tcp, target, now, event);
            match after.command.publish {
                Some(published) => published.serial == serial_after(tcp.serial, 1)
                    && after.tcp.serial == published.serial,
                None => after.tcp.serial == tcp.serial,
            }
        }),
{
}

/// Below the largest serial, a publication raises the serial by exactly
/// one.
pub proof fn lemma_serial_increases_by_one(
    tcp: TcpView,
    target: TargetView,
    now: u128,
    event: EventView,
)
    requires
        tcp.serial < u32::MAX,
        step(tcp, target, now, event).command.publish is Some,
    ensures
        step(tcp, target, now, event).tcp.serial == tcp.serial + 1,
        step(tcp, target, now, event).command.publish->0.serial == tcp.serial + 1,
{
}

/// Only the end of a cycle that is not known to be empty, in a unit that
/// streams, publishes anything; what is published is the set of that
/// cycle, whole, and it is the current set from then on. Every other
/// event leaves the current set alone.
pub proof fn lemma_current_set_follows_publications(
    tcp: TcpView,
    target: TargetView,
    now: u128,
    event: EventView,
)
    ensures
        ({
            let after = step(tcp, target, now, event);
            match after.command.publish {
                Some(published) => tcp.phase == Phase::Streaming && (event matches EventView::Cycle {
                    update,
                    ..
                } && !definitely_empty(update) && published.set == update.set && published.diff
                    == update.diff) && after.target.current == published.set,
                None => after.target.current == target.current,
            }
        }),
{
}

/// A unit that stops streaming at `now` without being told to end
/// begins its wait at that moment.
pub proof fn lemma_wait_begins_when_streaming_stops(
    tcp: TcpView,
    target: TargetView,
    now: u128,
    event: EventView,
)
    requires
        tcp.phase == Phase::Streaming,
        step(tcp, target, now, event).tcp.phase != Phase::Streaming,
        step(tcp, target, now, event).tcp.phase != Phase::Terminated,
    ensures
        step(tcp, target, now, event).tcp.phase == (Phase::RetryWait { since: now }),
{
}

/// While the unit waits, it asks to connect again only when its timer
/// went off and the whole retry interval has passed since the wait
/// began. A status from its gate is noted and changes neither the wait
/// nor its beginning. Being told to end ends the unit at once.
pub proof fn lemma_retry_wait_holds(
    tcp: TcpView,
    target: TargetView,
    since: u128,
    now: u128,
    event: EventView,
)
    requires
        tcp.phase == (Phase::RetryWait { since }),
    ensures
        ({
            let after = step(tcp, target, now, event);
            &&& after.tcp.phase == tcp.phase || after.tcp.phase == Phase::Connecting
                || after.tcp.phase == Phase::Terminated
            &&& after.tcp.phase == Phase::Connecting <==> after.command.next == Next::Connect
            &&& after.command.next == Next::Connect ==> event == EventView::Tick && waited(
                since,
                now,
            ) >= wait_length(tcp.retry)
            &&& after.command.next == Next::Connect && tcp.retry > 0 ==> now - since >= tcp.retry
                * 1_000_000_000
            &&& event is Status ==> after.tcp.phase == tcp.phase && after.command.next
                == Next::Continue && after.tcp.status == event->Status_0
            &&& event == EventView::Terminate ==> after.tcp.phase == Phase::Terminated
                && after.command.next == Next::Stop
        }),
{
}

/// A unit that has ended stays ended: whatever comes, it publishes
/// nothing, reports nothing and says to stop.
pub proof fn lemma_terminated_is_final(
    tcp: TcpView,
    target: TargetView,
    now: u128,
    event: EventView,
)
    requires
        tcp.phase == Phase::Terminated,
    ensures
        step(tcp, target, now, event) == (Outcome {
            tcp,
            target,
            command: CommandView { status: None, publish: None, next: Next::Stop },
        }),
{
}

/// Being told to end ends the unit in every phase, with nothing
/// published.
pub proof fn lemma_terminate_ends_the_unit(tcp: TcpView, target: TargetView, now: u128)
    ensures
        step(tcp, target, now, EventView::Terminate).tcp.phase == Phase::Terminated,
        step(tcp, target, now, EventView::Terminate).command == (CommandView {
            status: None,
            publish: None,
            next: Next::Stop,
        }),
{
}

/// Where the unit and its target stand after a run of events, each
/// with the clock reading at which it came.
pub open spec fn step_all(tcp: TcpView, target: TargetView, events: Seq<(u128, EventView)>) -> (
    TcpView,
    TargetView,
)
    decreases events.len(),
{
    if events.len() == 0 {
        (tcp, target)
    } else {
        let before = step_all(tcp, target, events.drop_last());
        let after = step(before.0, before.1, events.last().0, events.last().1);
        (after.tcp, after.target)
    }
}

/// Whatever comes while the unit waits, and in whatever order, the unit
/// either still waits, with the wait beginning where it began, or has
/// ended, or its timer went off at a moment when the whole retry
/// interval had passed since the wait began.
pub proof fn lemma_retry_wait_lasts(
    tcp: TcpView,
    target: TargetView,
    since: u128,
    events: Seq<(u128, EventView)>,
)
    requires
        tcp.phase == (Phase::RetryWait { since }),
    ensures
        step_all(tcp, target, events).0.retry == tcp.retry,
        ({
            let end = step_all(tcp, target, events).0;
            ||| end.phase == tcp.phase
            ||| end.phase == Phase::Terminated
            ||| exists|i: int|
                0 <= i < events.len() && (#[trigger] events[i]).1 == EventView::Tick && waited(
                    since,
                    events[i].0,
                ) >= wait_length(tcp.retry)
        }),
    decreases events.len(),
{
    if events.len() > 0 {
        let front = events.drop_last();
        lemma_retry_wait_lasts(tcp, target, since, front);
        let before = step_all(tcp, target, front);
        let last = events.last();
        if before.0.phase == tcp.phase {
            lemma_retry_wait_holds(before.0, before.1, since, last.0, last.1);
            let after = step(before.0, before.1, last.0, last.1);
            if after.tcp.phase == Phase::Connecting {
                assert(events[events.len() - 1] == last);
            }
        } else if before.0.phase == Phase::Terminated {
            lemma_terminated_is_final(before.0, before.1, last.0, last.1);
        } else {
            let i = choose|i: int|
                0 <= i < front.len() && (#[trigger] front[i]).1 == EventView::Tick && waited(
                    since,
                    front[i].0,
                ) >= wait_length(tcp.retry);
            assert(events[i] == front[i]);
        }
    }
}

/// The measurements of the unit: those that its gate keeps.
pub struct RtrMetrics {
    gate: Arc<GateMetrics>,
}

impl View for RtrMetrics {
    type V = GateMetrics;

    closed spec fn view(&self) -> GateMetrics {
        *self.gate
    }
}

impl RtrMetrics {
    /// The measurements that `gate` holds at present.
    pub fn new(gate: &Gate) -> (r: RtrMetrics)
        ensures
            r@ == gate@,
    {
        RtrMetrics { gate: gate.metrics() }
    }
}

impl metrics::Source for RtrMetrics {
    open spec fn readings(&self) -> Seq<(metrics::Metric, u64)> {
        self@.readings()
    }

    fn append(&self, unit_name: &str, target: &mut metrics::Target) {
        self.gate.append(unit_name, target);
    }
}

} // verus!
