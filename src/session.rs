//! The polling cycle as a state machine. The caller performs each action
//! (connect, wait, query the player, talk to the sink) and reports what
//! happened as the next event.
use vstd::prelude::*;
use crate::activity::{parse_and_build, payload_of, ActivityPayload, PayloadModel, PresenceConfig};
use crate::protocol::ProtocolError;

verus! {

/// What the loop is waiting for.
#[derive(Clone, Copy, Debug, PartialEq, Eq, Structural)]
pub enum Phase {
    /// The outcome of a connection attempt.
    Connecting,
    /// The end of the pause between connection attempts.
    RetryWait,
    /// The player's answer to a status request.
    Requesting,
    /// The sink clearing the activity after the connection was lost.
    Clearing,
    /// The sink taking a new activity.
    Publishing,
    /// The end of the pause between two polls.
    Sleeping,
}

/// What happened since the last action.
#[derive(Clone, Debug)]
pub enum Event {
    Connected,
    ConnectFailed,
    /// A requested pause is over.
    Elapsed,
    /// A full response block was read; `now` is the Unix time in seconds.
    Response { block: String, now: u64 },
    /// Writing the request or reading the response failed.
    IoFailed,
    /// The sink carried out the last request.
    SinkDone,
}

pub enum EventModel {
    Connected,
    ConnectFailed,
    Elapsed,
    Response { block: Seq<char>, now: u64 },
    IoFailed,
    SinkDone,
}

impl View for Event {
    type V = EventModel;

    open spec fn view(&self) -> EventModel {
        match self {
            Event::Connected => EventModel::Connected,
            Event::ConnectFailed => EventModel::ConnectFailed,
            Event::Elapsed => EventModel::Elapsed,
            Event::Response { block, now } => EventModel::Response { block: block@, now: *now },
            Event::IoFailed => EventModel::IoFailed,
            Event::SinkDone => EventModel::SinkDone,
        }
    }
}

/// What the caller must do next.
#[derive(Clone, Debug)]
pub enum Action {
    /// Try to connect to the player's socket; the old connection, if any, is dropped.
    Connect,
    /// Pause for this many milliseconds.
    Wait(u64),
    /// Send a status request and read the response block.
    RequestStatus,
    /// Clear the activity shown by the sink.
    ClearActivity,
    /// Show this activity.
    Publish(ActivityPayload),
}

pub enum ActionModel {
    Connect,
    Wait(u64),
    RequestStatus,
    ClearActivity,
    Publish(PayloadModel),
}

impl View for Action {
    type V = ActionModel;

    open spec fn view(&self) -> ActionModel {
        match self {
            Action::Connect => ActionModel::Connect,
            Action::Wait(ms) => ActionModel::Wait(*ms),
            Action::RequestStatus => ActionModel::RequestStatus,
            Action::ClearActivity => ActionModel::ClearActivity,
            Action::Publish(p) => ActionModel::Publish(p@),
        }
    }
}

/// Why the loop cannot go on.
#[derive(Clone, Copy, Debug, PartialEq, Eq, Structural)]
pub enum LoopError {
    /// The player sent a block that does not parse.
    Protocol(ProtocolError),
    /// The event is not one the current phase waits for.
    UnexpectedEvent,
}

/// The fixed settings of a loop.
pub struct SettingsModel {
    pub poll_interval_ms: u64,
    pub retry_interval_ms: u64,
    pub separator: Seq<char>,
    pub suffix: Seq<char>,
}

/// One transition: the next phase and the action to perform.
pub open spec fn step_spec(phase: Phase, ev: EventModel, s: SettingsModel) -> Result<
    (Phase, ActionModel),
    LoopError,
> {
    match (phase, ev) {
        (Phase::Connecting, EventModel::Connected) => Ok((Phase::Requesting, ActionModel::RequestStatus)),
        (Phase::Connecting, EventModel::ConnectFailed) => Ok(
            (Phase::RetryWait, ActionModel::Wait(s.retry_interval_ms)),
        ),
        (Phase::RetryWait, EventModel::Elapsed) => Ok((Phase::Connecting, ActionModel::Connect)),
        (Phase::Requesting, EventModel::IoFailed) => Ok((Phase::Clearing, ActionModel::ClearActivity)),
        (Phase::Requesting, EventModel::Response { block, now }) => match payload_of(
            block,
            now,
            s.separator,
            s.suffix,
        ) {
            Ok(p) => Ok((Phase::Publishing, ActionModel::Publish(p))),
            Err(e) => Err(LoopError::Protocol(e)),
        },
        (Phase::Clearing, EventModel::SinkDone) => Ok((Phase::Connecting, ActionModel::Connect)),
        (Phase::Publishing, EventModel::SinkDone) => Ok(
            (Phase::Sleeping, ActionModel::Wait(s.poll_interval_ms)),
        ),
        (Phase::Sleeping, EventModel::Elapsed) => Ok((Phase::Requesting, ActionModel::RequestStatus)),
        _ => Err(LoopError::UnexpectedEvent),
    }
}

/// The count of published activities after a transition from `phase`.
pub open spec fn next_cycles(phase: Phase, cycles: u64) -> u64 {
    if phase == Phase::Publishing && cycles < u64::MAX {
        (cycles + 1) as u64
    } else {
        cycles
    }
}

/// The polling loop: one connection slot, polled at a fixed interval.
#[derive(Debug)]
pub struct PollLoop {
    pub phase: Phase,
    pub poll_interval_ms: u64,
    pub retry_interval_ms: u64,
    pub presence: PresenceConfig,
    /// Activities the sink has taken so far, saturating at `u64::MAX`.
    pub cycles: u64,
}

impl PollLoop {
    pub open spec fn settings(&self) -> SettingsModel {
        SettingsModel {
            poll_interval_ms: self.poll_interval_ms,
            retry_interval_ms: self.retry_interval_ms,
            separator: self.presence.separator@,
            suffix: self.presence.suffix@,
        }
    }

    /// A loop about to make its first connection attempt: the caller starts
    /// with [`Action::Connect`].
    pub fn new(poll_interval_ms: u64, retry_interval_ms: u64, presence: PresenceConfig) -> (r: PollLoop)
        ensures
            r.phase == Phase::Connecting,
            r.poll_interval_ms == poll_interval_ms,
            r.retry_interval_ms == retry_interval_ms,
            r.presence == presence,
            r.cycles == 0,
    {
        PollLoop { phase: Phase::Connecting, poll_interval_ms, retry_interval_ms, presence, cycles: 0 }
    }

    /// Takes the outcome of the last action and says what to do next.
    pub fn step(&mut self, ev: Event) -> (r: Result<Action, LoopError>)
        ensures
            match step_spec(old(self).phase, ev@, old(self).settings()) {
                Ok((q, a)) => {
                    &&& r is Ok
                    &&& r->Ok_0@ == a
                    &&& final(self).phase == q
                    &&& final(self).poll_interval_ms == old(self).poll_interval_ms
                    &&& final(self).retry_interval_ms == old(self).retry_interval_ms
                    &&& final(self).presence == old(self).presence
                    &&& final(self).cycles == next_cycles(old(self).phase, old(self).cycles)
                },
                Err(e) => r == Err::<Action, LoopError>(e) && *final(self) == *old(self),
            },
    {
        match (self.phase, ev) {
            (Phase::Connecting, Event::Connected) => {
                self.phase = Phase::Requesting;
                Ok(Action::RequestStatus)
            },
            (Phase::Connecting, Event::ConnectFailed) => {
                self.phase = Phase::RetryWait;
                Ok(Action::Wait(self.retry_interval_ms))
            },
            (Phase::RetryWait, Event::Elapsed) => {
                self.phase = Phase::Connecting;
                Ok(Action::Connect)
            },
            (Phase::Requesting, Event::IoFailed) => {
                self.phase = Phase::Clearing;
                Ok(Action::ClearActivity)
            },
            (Phase::Requesting, Event::Response { block, now }) => {
                match parse_and_build(block.as_str(), now, &self.presence) {
                    Ok(p) => {
                        self.phase = Phase::Publishing;
                        Ok(Action::Publish(p))
                    },
                    Err(e) => Err(LoopError::Protocol(e)),
                }
            },
            (Phase::Clearing, Event::SinkDone) => {
                self.phase = Phase::Connecting;
                Ok(Action::Connect)
            },
            (Phase::Publishing, Event::SinkDone) => {
                self.phase = Phase::Sleeping;
                if self.cycles < u64::MAX {
                    self.cycles = self.cycles + 1;
                }
                Ok(Action::Wait(self.poll_interval_ms))
            },
            (Phase::Sleeping, Event::Elapsed) => {
                self.phase = Phase::Requesting;
                Ok(Action::RequestStatus)
            },
            _ => Err(LoopError::UnexpectedEvent),
        }
    }
}

/// The phases and actions that a sequence of events leads through, from
/// `phase`; `None` where the loop would stop.
pub open spec fn run(phase: Phase, evs: Seq<EventModel>, s: SettingsModel) -> Option<
    (Phase, Seq<ActionModel>),
>
    decreases evs.len(),
{
    if evs.len() == 0 {
        Some((phase, Seq::empty()))
    } else {
        match step_spec(phase, evs[0], s) {
            Ok((q, a)) => match run(q, evs.drop_first(), s) {
                Some((last, acts)) => Some((last, seq![a] + acts)),
                None => None,
            },
            Err(_) => None,
        }
    }
}

/// `n` failed connection attempts, each followed by the retry pause.
pub open spec fn failed_attempts(n: nat) -> Seq<EventModel>
    decreases n,
{
    if n == 0 {
        Seq::empty()
    } else {
        seq![EventModel::ConnectFailed, EventModel::Elapsed] + failed_attempts((n - 1) as nat)
    }
}

/// The actions answering `n` failed connection attempts.
pub open spec fn retries(n: nat, retry_ms: u64) -> Seq<ActionModel>
    decreases n,
{
    if n == 0 {
        Seq::empty()
    } else {
        seq![ActionModel::Wait(retry_ms), ActionModel::Connect] + retries((n - 1) as nat, retry_ms)
    }
}

proof fn lemma_reconnect(n: nat, s: SettingsModel)
    ensures
        run(Phase::Connecting, failed_attempts(n) + seq![EventModel::Connected], s) == Some(
            (Phase::Requesting, retries(n, s.retry_interval_ms) + seq![ActionModel::RequestStatus]),
        ),
    decreases n,
{
    let evs = failed_attempts(n) + seq![EventModel::Connected];
    if n == 0 {
        assert(evs =~= seq![EventModel::Connected]);
        assert(evs.drop_first() =~= Seq::<EventModel>::empty());
        assert(run(Phase::Requesting, evs.drop_first(), s) == Some((Phase::Requesting, Seq::<ActionModel>::empty())));
        assert(retries(n, s.retry_interval_ms) + seq![ActionModel::RequestStatus] =~= seq![
            ActionModel::RequestStatus,
        ]);
    } else {
        let rest = failed_attempts((n - 1) as nat) + seq![EventModel::Connected];
        lemma_reconnect((n - 1) as nat, s);
        assert(evs.drop_first().drop_first() =~= rest);
        assert(evs[0] == EventModel::ConnectFailed);
        assert(evs.drop_first()[0] == EventModel::Elapsed);
        let after = retries((n - 1) as nat, s.retry_interval_ms) + seq![ActionModel::RequestStatus];
        assert(run(Phase::Connecting, evs.drop_first().drop_first(), s) == Some((Phase::Requesting, after)));
        assert(run(Phase::RetryWait, evs.drop_first(), s) == Some(
            (Phase::Requesting, seq![ActionModel::Connect] + after),
        ));
        assert(retries(n, s.retry_interval_ms) + seq![ActionModel::RequestStatus] =~= seq![
            ActionModel::Wait(s.retry_interval_ms),
            ActionModel::Connect,
        ] + (retries((n - 1) as nat, s.retry_interval_ms) + seq![ActionModel::RequestStatus]));
    }
}

proof fn lemma_retries_never_clear(n: nat, retry_ms: u64)
    ensures
        forall|k: int| 0 <= k < retries(n, retry_ms).len() ==> !(#[trigger] retries(n, retry_ms)[k] is ClearActivity),
        retries(n, retry_ms).len() == 2 * n,
    decreases n,
{
    if n > 0 {
        lemma_retries_never_clear((n - 1) as nat, retry_ms);
    }
}

/// Losing the connection while polling clears the activity exactly once,
/// before the first reconnection attempt; however many attempts fail, the
/// loop goes back to polling once one succeeds.
pub proof fn lemma_connection_loss_recovers(failures: nat, s: SettingsModel)
    ensures
        ({
            let evs = seq![EventModel::IoFailed, EventModel::SinkDone] + failed_attempts(failures)
                + seq![EventModel::Connected];
            let outcome = run(Phase::Requesting, evs, s);
            &&& outcome is Some
            &&& ({
                let (last, acts) = outcome->0;
                &&& last == Phase::Requesting
                &&& acts.len() == 2 * failures + 3
                &&& acts[0] is ClearActivity
                &&& acts[1] is Connect
                &&& forall|k: int| 0 < k < acts.len() ==> !(#[trigger] acts[k] is ClearActivity)
                &&& acts[acts.len() - 1] is RequestStatus
            })
        }),
{
    let evs = seq![EventModel::IoFailed, EventModel::SinkDone] + failed_attempts(failures) + seq![
        EventModel::Connected,
    ];
    let tail = failed_attempts(failures) + seq![EventModel::Connected];
    lemma_reconnect(failures, s);
    lemma_retries_never_clear(failures, s.retry_interval_ms);
    assert(evs.drop_first().drop_first() =~= tail);
    assert(evs[0] == EventModel::IoFailed);
    assert(evs.drop_first()[0] == EventModel::SinkDone);
    let r = retries(failures, s.retry_interval_ms);
    let after = r + seq![ActionModel::RequestStatus];
    assert(run(Phase::Connecting, evs.drop_first().drop_first(), s) == Some((Phase::Requesting, after)));
    assert(run(Phase::Clearing, evs.drop_first(), s) == Some(
        (Phase::Requesting, seq![ActionModel::Connect] + after),
    ));
    assert(run(Phase::Requesting, evs, s) == Some(
        (Phase::Requesting, seq![ActionModel::ClearActivity] + (seq![ActionModel::Connect] + after)),
    ));
    let (last, acts) = run(Phase::Requesting, evs, s)->0;
    assert(acts =~= seq![ActionModel::ClearActivity, ActionModel::Connect] + after);
    assert forall|k: int| 0 < k < acts.len() implies !(#[trigger] acts[k] is ClearActivity) by {
        if 2 <= k < acts.len() - 1 {
            assert(acts[k] == r[k - 2]);
        }
    }
}

} // verus!
