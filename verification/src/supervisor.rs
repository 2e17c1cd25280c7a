//! The device connection supervisor.
//!
//! A supervisor looks after one device. On every tick it reads the device's
//! connected and trusted flags and the playback signal, and from these alone
//! decides what to ask of the device: connect it while something plays,
//! disconnect it while nothing does. A request that fails is not repeated
//! within the tick; the next tick sees the same state and asks again.

use crate::registry::Registry;
use crate::registry::RegistryModel;
use crate::registry::SupervisorHandle;
use crate::service::asha_profile;
use crate::service::ASHA_SERVICE_UUID;
use vstd::prelude::*;

verus! {

/// Milliseconds between two ticks of a supervisor.
pub const SUPERVISOR_POLL_MS: u64 = 100;

/// What one tick read from the device. `None` stands for a query that failed.
#[derive(Clone, Copy, Debug, PartialEq, Eq, Structural)]
pub struct Observation {
    pub connected: Option<bool>,
    pub trusted: Option<bool>,
}

/// What a tick decides.
#[derive(Clone, Copy, Debug, PartialEq, Eq, Structural)]
pub enum Action {
    /// A query failed: nothing is known, nothing is done.
    Skip,
    /// The device is as it should be.
    Idle,
    /// Mark the device trusted, then connect the ASHA profile.
    TrustThenConnect,
    /// Connect the ASHA profile.
    Connect,
    /// Disconnect the device.
    Disconnect,
}

/// One operation asked of the device.
#[derive(Clone, Copy, Debug, PartialEq, Eq, Structural)]
pub enum Request {
    /// Set the trusted flag.
    SetTrusted,
    /// Connect the profile with this UUID.
    ConnectProfile(u128),
    /// Drop the connection.
    Disconnect,
}

/// What a supervisor is to do with a tick.
#[derive(Clone, Copy, Debug, PartialEq, Eq, Structural)]
pub enum Tick {
    /// The supervisor was cancelled: it stops and asks nothing more.
    Cancelled,
    /// The supervisor goes on with this action.
    Due(Action),
}

/// The connection state machine: the action for what was read.
pub open spec fn spec_decide(observation: Observation, playing: bool) -> Action {
    match (observation.connected, observation.trusted) {
        (Some(connected), Some(trusted)) => {
            if playing && !connected {
                if trusted {
                    Action::Connect
                } else {
                    Action::TrustThenConnect
                }
            } else if !playing && connected {
                Action::Disconnect
            } else {
                Action::Idle
            }
        },
        _ => Action::Skip,
    }
}

/// The requests that carry out an action, in the order in which they are
/// issued.
pub open spec fn spec_requests(action: Action) -> Seq<Request> {
    match action {
        Action::Skip => seq![],
        Action::Idle => seq![],
        Action::TrustThenConnect => seq![
            Request::SetTrusted,
            Request::ConnectProfile(ASHA_SERVICE_UUID),
        ],
        Action::Connect => seq![Request::ConnectProfile(ASHA_SERVICE_UUID)],
        Action::Disconnect => seq![Request::Disconnect],
    }
}

/// What a supervisor under `handle` does with a tick: nothing if it is not
/// the current supervisor of its device, else what the state machine says.
pub open spec fn spec_plan_tick(
    registry: RegistryModel,
    handle: SupervisorHandle,
    observation: Observation,
    playing: bool,
) -> Tick {
    if registry.is_current(handle) {
        Tick::Due(spec_decide(observation, playing))
    } else {
        Tick::Cancelled
    }
}

/// The requests of a tick: none once the supervisor is cancelled.
pub open spec fn spec_tick_requests(tick: Tick) -> Seq<Request> {
    match tick {
        Tick::Cancelled => seq![],
        Tick::Due(action) => spec_requests(action),
    }
}

/// Decides the action of one tick.
#[verifier::when_used_as_spec(spec_decide)]
pub fn decide(observation: Observation, playing: bool) -> (action: Action)
    ensures
        action == spec_decide(observation, playing),
{
    let connected = match observation.connected {
        Some(flag) => flag,
        None => {
            return Action::Skip;
        },
    };
    let trusted = match observation.trusted {
        Some(flag) => flag,
        None => {
            return Action::Skip;
        },
    };
    if playing && !connected {
        if trusted {
            Action::Connect
        } else {
            Action::TrustThenConnect
        }
    } else if !playing && connected {
        Action::Disconnect
    } else {
        Action::Idle
    }
}

/// Lists the requests that carry out an action.
pub fn requests(action: Action) -> (list: Vec<Request>)
    ensures
        list@ == spec_requests(action),
{
    let mut list: Vec<Request> = Vec::new();
    match action {
        Action::Skip => {},
        Action::Idle => {},
        Action::TrustThenConnect => {
            list.push(Request::SetTrusted);
            list.push(Request::ConnectProfile(asha_profile()));
        },
        Action::Connect => {
            list.push(Request::ConnectProfile(asha_profile()));
        },
        Action::Disconnect => {
            list.push(Request::Disconnect);
        },
    }
    list
}

/// Plans one tick of the supervisor under `handle`.
pub fn plan_tick(
    registry: &Registry,
    handle: SupervisorHandle,
    observation: Observation,
    playing: bool,
) -> (tick: Tick)
    ensures
        tick == spec_plan_tick(registry@, handle, observation, playing),
{
    if registry.is_current(handle) {
        Tick::Due(decide(observation, playing))
    } else {
        Tick::Cancelled
    }
}

/// Lists the requests of a tick.
pub fn tick_requests(tick: Tick) -> (list: Vec<Request>)
    ensures
        list@ == spec_tick_requests(tick),
        tick == Tick::Cancelled ==> list@.len() == 0,
{
    match tick {
        Tick::Cancelled => Vec::new(),
        Tick::Due(action) => requests(action),
    }
}

/// The flags of a device as a supervisor would read them.
#[derive(Clone, Copy, Debug, PartialEq, Eq, Structural)]
pub struct LinkState {
    pub connected: bool,
    pub trusted: bool,
}

/// The circumstances of one tick: the playback signal, which queries
/// answer, and which requests would succeed.
#[derive(Clone, Copy, Debug, PartialEq, Eq, Structural)]
pub struct Conditions {
    pub playing: bool,
    pub connected_readable: bool,
    pub trusted_readable: bool,
    pub trust_succeeds: bool,
    pub connect_succeeds: bool,
    pub disconnect_succeeds: bool,
}

impl Conditions {
    /// Both queries answer.
    pub open spec fn readable(self) -> bool {
        self.connected_readable && self.trusted_readable
    }

    /// Whether the request would succeed.
    pub open spec fn spec_succeeds(self, request: Request) -> bool {
        match request {
            Request::SetTrusted => self.trust_succeeds,
            Request::ConnectProfile(_) => self.connect_succeeds,
            Request::Disconnect => self.disconnect_succeeds,
        }
    }

    #[verifier::when_used_as_spec(spec_succeeds)]
    pub fn succeeds(self, request: Request) -> (ok: bool)
        ensures
            ok == self.spec_succeeds(request),
    {
        match request {
            Request::SetTrusted => self.trust_succeeds,
            Request::ConnectProfile(_) => self.connect_succeeds,
            Request::Disconnect => self.disconnect_succeeds,
        }
    }
}

impl LinkState {
    /// What a tick reads of the device under the given circumstances.
    pub open spec fn spec_observe(self, conditions: Conditions) -> Observation {
        Observation {
            connected: if conditions.connected_readable {
                Some(self.connected)
            } else {
                None
            },
            trusted: if conditions.trusted_readable {
                Some(self.trusted)
            } else {
                None
            },
        }
    }

    /// The flags after one request: a request that succeeds sets the flag it
    /// is about, one that fails changes nothing.
    pub open spec fn spec_after_request(self, request: Request, succeeded: bool) -> LinkState {
        if !succeeded {
            self
        } else {
            match request {
                Request::SetTrusted => LinkState { trusted: true, ..self },
                Request::ConnectProfile(_) => LinkState { connected: true, ..self },
                Request::Disconnect => LinkState { connected: false, ..self },
            }
        }
    }

    /// The flags after a list of requests, issued in order.
    pub open spec fn spec_after_requests(
        self,
        requests: Seq<Request>,
        conditions: Conditions,
    ) -> LinkState
        decreases requests.len(),
    {
        if requests.len() == 0 {
            self
        } else {
            self.spec_after_requests(requests.drop_last(), conditions).spec_after_request(
                requests.last(),
                conditions.spec_succeeds(requests.last()),
            )
        }
    }

    /// The flags after one tick of the device's supervisor.
    pub open spec fn spec_after_tick(self, conditions: Conditions) -> LinkState {
        self.spec_after_requests(
            spec_requests(spec_decide(self.spec_observe(conditions), conditions.playing)),
            conditions,
        )
    }

    /// The flags after a run of ticks, one for each entry of `run`.
    pub open spec fn spec_after_ticks(self, run: Seq<Conditions>) -> LinkState
        decreases run.len(),
    {
        if run.len() == 0 {
            self
        } else {
            self.spec_after_ticks(run.drop_last()).spec_after_tick(run.last())
        }
    }

    #[verifier::when_used_as_spec(spec_observe)]
    pub fn observe(self, conditions: Conditions) -> (observation: Observation)
        ensures
            observation == self.spec_observe(conditions),
    {
        Observation {
            connected: if conditions.connected_readable {
                Some(self.connected)
            } else {
                None
            },
            trusted: if conditions.trusted_readable {
                Some(self.trusted)
            } else {
                None
            },
        }
    }

    #[verifier::when_used_as_spec(spec_after_request)]
    pub fn after_request(self, request: Request, succeeded: bool) -> (next: LinkState)
        ensures
            next == self.spec_after_request(request, succeeded),
    {
        if !succeeded {
            self
        } else {
            match request {
                Request::SetTrusted => LinkState { connected: self.connected, trusted: true },
                Request::ConnectProfile(_) => LinkState { connected: true, trusted: self.trusted },
                Request::Disconnect => LinkState { connected: false, trusted: self.trusted },
            }
        }
    }

    /// Plays one tick of the supervisor against the device.
    #[verifier::when_used_as_spec(spec_after_tick)]
    pub fn after_tick(self, conditions: Conditions) -> (next: LinkState)
        ensures
            next == self.spec_after_tick(conditions),
    {
        let list = requests(decide(self.observe(conditions), conditions.playing));
        let mut state = self;
        let mut i: usize = 0;
        while i < list.len()
            invariant
                i <= list.len(),
                state == self.spec_after_requests(list@.take(i as int), conditions),
            decreases list.len() - i,
        {
            proof {
                let upto = list@.take(i + 1);
                assert(upto.drop_last() == list@.take(i as int));
                assert(upto.last() == list@[i as int]);
            }
            state = state.after_request(list[i], conditions.succeeds(list[i]));
            i += 1;
        }
        proof {
            assert(list@.take(list.len() as int) == list@);
        }
        state
    }

    /// Plays a run of ticks against the device.
    pub fn after_ticks(self, run: &Vec<Conditions>) -> (next: LinkState)
        ensures
            next == self.spec_after_ticks(run@),
    {
        let mut state = self;
        let mut i: usize = 0;
        while i < run.len()
            invariant
                i <= run.len(),
                state == self.spec_after_ticks(run@.take(i as int)),
            decreases run.len() - i,
        {
            proof {
                let upto = run@.take(i + 1);
                assert(upto.drop_last() == run@.take(i as int));
                assert(upto.last() == run@[i as int]);
            }
            state = state.after_tick(run[i]);
            i += 1;
        }
        proof {
            assert(run@.take(run.len() as int) == run@);
        }
        state
    }
}

/// What a tick does to the flags, action by action.
pub proof fn lemma_tick_by_action(state: LinkState, conditions: Conditions)
    ensures
        state.spec_after_tick(conditions) == (match spec_decide(
            state.spec_observe(conditions),
            conditions.playing,
        ) {
            Action::Skip => state,
            Action::Idle => state,
            Action::TrustThenConnect => LinkState {
                connected: conditions.connect_succeeds,
                trusted: conditions.trust_succeeds,
            },
            Action::Connect => LinkState { connected: conditions.connect_succeeds, trusted: true },
            Action::Disconnect => LinkState {
                connected: !conditions.disconnect_succeeds,
                trusted: state.trusted,
            },
        }),
{
    let action = spec_decide(state.spec_observe(conditions), conditions.playing);
    let list = spec_requests(action);
    reveal_with_fuel(LinkState::spec_after_requests, 3);
    if list.len() == 2 {
        assert(list.drop_last() =~= seq![Request::SetTrusted]);
        assert(list.drop_last().drop_last() =~= Seq::<Request>::empty());
    } else if list.len() == 1 {
        assert(list.drop_last() =~= Seq::<Request>::empty());
    }
}

/// While something plays, one tick in which the queries answer and the
/// connect succeeds leaves the device connected, trusted or not.
pub proof fn lemma_connects_when_playing(state: LinkState, conditions: Conditions)
    requires
        conditions.playing,
        conditions.readable(),
        conditions.connect_succeeds,
    ensures
        state.spec_after_tick(conditions).connected,
{
    lemma_tick_by_action(state, conditions);
}

/// A device that is connected while something plays is left alone: the tick
/// issues no request and changes nothing.
pub proof fn lemma_connected_is_left_alone(state: LinkState, conditions: Conditions)
    requires
        conditions.playing,
        state.connected,
    ensures
        spec_requests(spec_decide(state.spec_observe(conditions), conditions.playing)).len() == 0,
        state.spec_after_tick(conditions) == state,
{
    lemma_tick_by_action(state, conditions);
}

/// While something plays throughout a run of ticks, the device is connected
/// at the end if it was at the start or if in some tick of the run the
/// queries answered and the connect succeeded.
pub proof fn lemma_connected_within_run(state: LinkState, run: Seq<Conditions>, clean: int)
    requires
        forall|i: int| 0 <= i < run.len() ==> (#[trigger] run[i]).playing,
        state.connected || (0 <= clean < run.len() && run[clean].readable()
            && run[clean].connect_succeeds),
    ensures
        state.spec_after_ticks(run).connected,
    decreases run.len(),
{
    if run.len() > 0 {
        let before = run.drop_last();
        let reached = state.spec_after_ticks(before);
        assert(run.last() == run[run.len() - 1]);
        assert(run.last().playing);
        if state.connected || clean < run.len() - 1 {
            assert forall|i: int| 0 <= i < before.len() implies (#[trigger] before[i]).playing by {
                assert(before[i] == run[i]);
            }
            if !state.connected {
                assert(before[clean] == run[clean]);
            }
            lemma_connected_within_run(state, before, clean);
            lemma_connected_is_left_alone(reached, run.last());
        } else {
            lemma_connects_when_playing(reached, run.last());
        }
    }
}

/// Once nothing plays, one tick in which the queries answer and the
/// disconnect succeeds leaves the device disconnected.
pub proof fn lemma_disconnects_when_silent(state: LinkState, conditions: Conditions)
    requires
        !conditions.playing,
        conditions.readable(),
        conditions.disconnect_succeeds,
    ensures
        !state.spec_after_tick(conditions).connected,
{
    lemma_tick_by_action(state, conditions);
}

/// A tick in which a query fails, or in which every request fails, leaves
/// the flags as they were: the next tick decides on the same state.
pub proof fn lemma_failed_tick_changes_nothing(state: LinkState, conditions: Conditions)
    requires
        !conditions.readable() || (!conditions.trust_succeeds && !conditions.connect_succeeds
            && !conditions.disconnect_succeeds),
    ensures
        state.spec_after_tick(conditions) == state,
{
    lemma_tick_by_action(state, conditions);
}

/// A supervisor that was cancelled issues no request, whatever it reads.
pub proof fn lemma_cancelled_asks_nothing(
    registry: RegistryModel,
    handle: SupervisorHandle,
    observation: Observation,
    playing: bool,
)
    requires
        registry.cancelled(handle),
    ensures
        spec_plan_tick(registry, handle, observation, playing) == Tick::Cancelled,
        spec_tick_requests(spec_plan_tick(registry, handle, observation, playing)).len() == 0,
{
}

} // verus!
