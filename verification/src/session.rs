//! The adapter session controller.
//!
//! One attempt to reach the discovery stream is an epoch: five setup steps in
//! order, each of which may fail. A failure ends the epoch, is followed by a
//! pause whose length depends on what failed, and then a new epoch starts.
//! The controller never stops: every phase has a command, and every report
//! leads to a next phase.

use vstd::prelude::*;

verus! {

/// Pause after a transient adapter or power problem, in milliseconds.
pub const SHORT_BACKOFF_MS: u64 = 5_000;

/// Pause after the Bluetooth service itself proved unavailable, in
/// milliseconds.
pub const LONG_BACKOFF_MS: u64 = 60_000;

/// Which radio transport discovery scans.
#[derive(Clone, Copy, Debug, PartialEq, Eq, Structural)]
pub enum Transport {
    Auto,
    BrEdr,
    Le,
}

/// The discovery filter applied to the adapter.
#[derive(Debug, PartialEq, Eq)]
pub struct DiscoveryFilter {
    /// Report only devices that advertise one of these UUIDs; empty for any.
    pub uuids: Vec<u128>,
    /// Report only devices received at least this strongly.
    pub rssi: Option<i16>,
    /// Report only devices with at most this path loss.
    pub pathloss: Option<u16>,
    /// The transport to scan.
    pub transport: Transport,
    /// Report advertisement data every time it is seen.
    pub duplicate_data: bool,
    /// Make the adapter discoverable while it discovers.
    pub discoverable: bool,
    /// Report only devices whose address or name starts with this.
    pub pattern: Option<String>,
}

impl DiscoveryFilter {
    /// The filter of every epoch: Low Energy only, nothing else restricted.
    pub open spec fn is_le_only(&self) -> bool {
        &&& self.transport == Transport::Le
        &&& self.uuids@.len() == 0
        &&& self.rssi is None
        &&& self.pathloss is None
        &&& !self.duplicate_data
        &&& !self.discoverable
        &&& self.pattern is None
    }
}

/// Builds the filter of every epoch.
pub fn le_only_filter() -> (filter: DiscoveryFilter)
    ensures
        filter.is_le_only(),
{
    DiscoveryFilter {
        uuids: Vec::new(),
        rssi: None,
        pathloss: None,
        transport: Transport::Le,
        duplicate_data: false,
        discoverable: false,
        pattern: None,
    }
}

/// The setup steps of an epoch, in the order in which they run.
#[derive(Clone, Copy, Debug, PartialEq, Eq, Structural)]
pub enum SetupStep {
    OpenSession,
    AcquireAdapter,
    ReadPower,
    ApplyFilter,
    StartDiscovery,
}

/// Why an epoch was abandoned.
#[derive(Clone, Copy, Debug, PartialEq, Eq, Structural)]
pub enum SetupFailure {
    SessionUnavailable,
    AdapterUnavailable,
    PowerUnreadable,
    AdapterOff,
    FilterRejected,
    DiscoveryUnavailable,
}

/// How long to wait before the next epoch.
#[derive(Clone, Copy, Debug, PartialEq, Eq, Structural)]
pub enum Backoff {
    Short,
    Long,
}

/// What the driver reports after carrying out a command.
#[derive(Clone, Copy, Debug, PartialEq, Eq, Structural)]
pub enum Report {
    /// The step succeeded, the pause elapsed, or the event stream ended.
    Completed,
    /// The external call returned an error.
    Failed,
    /// The adapter answered that it is powered off.
    PoweredOff,
}

/// Where the controller stands.
#[derive(Clone, Copy, Debug, PartialEq, Eq, Structural)]
pub enum Phase {
    /// The given step is to run next.
    Setup(SetupStep),
    /// Discovery is running and its events are being routed.
    Routing,
    /// The epoch failed and the pause before the next one is due.
    Backoff(SetupFailure),
}

/// What the driver has to do in a phase.
#[derive(Clone, Copy, Debug, PartialEq, Eq, Structural)]
pub enum Command {
    /// Carry out a setup step against the adapter interface.
    Perform(SetupStep),
    /// Consume the discovery stream until it ends.
    Route,
    /// Sleep for this many milliseconds.
    Sleep(u64),
}

impl SetupStep {
    /// The step that follows on success; none after the last.
    pub open spec fn spec_next(self) -> Option<SetupStep> {
        match self {
            SetupStep::OpenSession => Some(SetupStep::AcquireAdapter),
            SetupStep::AcquireAdapter => Some(SetupStep::ReadPower),
            SetupStep::ReadPower => Some(SetupStep::ApplyFilter),
            SetupStep::ApplyFilter => Some(SetupStep::StartDiscovery),
            SetupStep::StartDiscovery => None,
        }
    }

    /// The failure that an error in this step amounts to.
    pub open spec fn spec_failure(self) -> SetupFailure {
        match self {
            SetupStep::OpenSession => SetupFailure::SessionUnavailable,
            SetupStep::AcquireAdapter => SetupFailure::AdapterUnavailable,
            SetupStep::ReadPower => SetupFailure::PowerUnreadable,
            SetupStep::ApplyFilter => SetupFailure::FilterRejected,
            SetupStep::StartDiscovery => SetupFailure::DiscoveryUnavailable,
        }
    }

    /// The position of the step in an epoch, from 0.
    pub open spec fn spec_index(self) -> nat {
        match self {
            SetupStep::OpenSession => 0,
            SetupStep::AcquireAdapter => 1,
            SetupStep::ReadPower => 2,
            SetupStep::ApplyFilter => 3,
            SetupStep::StartDiscovery => 4,
        }
    }

    #[verifier::when_used_as_spec(spec_next)]
    pub fn next(self) -> (next: Option<SetupStep>)
        ensures
            next == self.spec_next(),
    {
        match self {
            SetupStep::OpenSession => Some(SetupStep::AcquireAdapter),
            SetupStep::AcquireAdapter => Some(SetupStep::ReadPower),
            SetupStep::ReadPower => Some(SetupStep::ApplyFilter),
            SetupStep::ApplyFilter => Some(SetupStep::StartDiscovery),
            SetupStep::StartDiscovery => None,
        }
    }

    #[verifier::when_used_as_spec(spec_failure)]
    pub fn failure(self) -> (failure: SetupFailure)
        ensures
            failure == self.spec_failure(),
    {
        match self {
            SetupStep::OpenSession => SetupFailure::SessionUnavailable,
            SetupStep::AcquireAdapter => SetupFailure::AdapterUnavailable,
            SetupStep::ReadPower => SetupFailure::PowerUnreadable,
            SetupStep::ApplyFilter => SetupFailure::FilterRejected,
            SetupStep::StartDiscovery => SetupFailure::DiscoveryUnavailable,
        }
    }
}

impl SetupFailure {
    /// Failing to reach the session, the adapter or the discovery stream
    /// means the Bluetooth service is away: wait long. A power or filter
    /// problem is transient: wait briefly.
    pub open spec fn spec_backoff(self) -> Backoff {
        match self {
            SetupFailure::SessionUnavailable => Backoff::Long,
            SetupFailure::AdapterUnavailable => Backoff::Long,
            SetupFailure::DiscoveryUnavailable => Backoff::Long,
            SetupFailure::PowerUnreadable => Backoff::Short,
            SetupFailure::AdapterOff => Backoff::Short,
            SetupFailure::FilterRejected => Backoff::Short,
        }
    }

    /// The pause that follows this failure, in milliseconds.
    pub open spec fn spec_backoff_ms(self) -> u64 {
        self.spec_backoff().spec_millis()
    }

    #[verifier::when_used_as_spec(spec_backoff)]
    pub fn backoff(self) -> (backoff: Backoff)
        ensures
            backoff == self.spec_backoff(),
    {
        match self {
            SetupFailure::SessionUnavailable => Backoff::Long,
            SetupFailure::AdapterUnavailable => Backoff::Long,
            SetupFailure::DiscoveryUnavailable => Backoff::Long,
            SetupFailure::PowerUnreadable => Backoff::Short,
            SetupFailure::AdapterOff => Backoff::Short,
            SetupFailure::FilterRejected => Backoff::Short,
        }
    }

    #[verifier::when_used_as_spec(spec_backoff_ms)]
    pub fn backoff_ms(self) -> (millis: u64)
        ensures
            millis == self.spec_backoff_ms(),
    {
        self.backoff().millis()
    }
}

impl Backoff {
    pub open spec fn spec_millis(self) -> u64 {
        match self {
            Backoff::Short => SHORT_BACKOFF_MS,
            Backoff::Long => LONG_BACKOFF_MS,
        }
    }

    #[verifier::when_used_as_spec(spec_millis)]
    pub fn millis(self) -> (millis: u64)
        ensures
            millis == self.spec_millis(),
    {
        match self {
            Backoff::Short => SHORT_BACKOFF_MS,
            Backoff::Long => LONG_BACKOFF_MS,
        }
    }
}

impl Phase {
    /// The phase in which every process starts: the first step of the first
    /// epoch.
    pub open spec fn spec_start() -> Phase {
        Phase::Setup(SetupStep::OpenSession)
    }

    /// What is to be done in this phase.
    pub open spec fn spec_command(self) -> Command {
        match self {
            Phase::Setup(step) => Command::Perform(step),
            Phase::Routing => Command::Route,
            Phase::Backoff(failure) => Command::Sleep(failure.spec_backoff_ms()),
        }
    }

    /// The phase that follows once the driver has reported on the command.
    ///
    /// A step that completes leads to the next step, the last one to routing.
    /// A step that fails, or an adapter that is off, leads to the pause. When
    /// routing ends or the pause is over, whatever the report, a new epoch
    /// starts.
    pub open spec fn spec_advance(self, report: Report) -> Phase {
        match self {
            Phase::Setup(step) => match report {
                Report::Completed => match step.spec_next() {
                    Some(next) => Phase::Setup(next),
                    None => Phase::Routing,
                },
                Report::Failed => Phase::Backoff(step.spec_failure()),
                Report::PoweredOff => Phase::Backoff(SetupFailure::AdapterOff),
            },
            Phase::Routing => Phase::spec_start(),
            Phase::Backoff(_) => Phase::spec_start(),
        }
    }

    #[verifier::when_used_as_spec(spec_start)]
    pub fn start() -> (phase: Phase)
        ensures
            phase == Phase::spec_start(),
    {
        Phase::Setup(SetupStep::OpenSession)
    }

    #[verifier::when_used_as_spec(spec_command)]
    pub fn command(self) -> (command: Command)
        ensures
            command == self.spec_command(),
    {
        match self {
            Phase::Setup(step) => Command::Perform(step),
            Phase::Routing => Command::Route,
            Phase::Backoff(failure) => Command::Sleep(failure.backoff_ms()),
        }
    }

    #[verifier::when_used_as_spec(spec_advance)]
    pub fn advance(self, report: Report) -> (next: Phase)
        ensures
            next == self.spec_advance(report),
    {
        match self {
            Phase::Setup(step) => match report {
                Report::Completed => match step.next() {
                    Some(next) => Phase::Setup(next),
                    None => Phase::Routing,
                },
                Report::Failed => Phase::Backoff(step.failure()),
                Report::PoweredOff => Phase::Backoff(SetupFailure::AdapterOff),
            },
            Phase::Routing => Phase::start(),
            Phase::Backoff(_) => Phase::start(),
        }
    }
}

/// The phase reached from `phase` after the driver's reports, in order.
pub open spec fn run(phase: Phase, reports: Seq<Report>) -> Phase
    decreases reports.len(),
{
    if reports.len() == 0 {
        phase
    } else {
        run(phase, reports.drop_last()).spec_advance(reports.last())
    }
}

/// Replays a sequence of reports from a phase.
pub fn replay(phase: Phase, reports: &Vec<Report>) -> (reached: Phase)
    ensures
        reached == run(phase, reports@),
{
    let mut reached = phase;
    let mut i: usize = 0;
    while i < reports.len()
        invariant
            i <= reports.len(),
            reached == run(phase, reports@.take(i as int)),
        decreases reports.len() - i,
    {
        proof {
            let upto = reports@.take(i + 1);
            assert(upto.drop_last() == reports@.take(i as int));
            assert(upto.last() == reports@[i as int]);
        }
        reached = reached.advance(reports[i]);
        i += 1;
    }
    proof {
        assert(reports@.take(reports.len() as int) == reports@);
    }
    reached
}

/// A step that does not complete costs exactly one pause, of the length that
/// belongs to the failure, and then the next epoch starts at its first step.
pub proof fn lemma_failure_restarts_epoch(step: SetupStep, report: Report, elapsed: Report)
    requires
        report != Report::Completed,
    ensures
        Phase::Setup(step).spec_advance(report) matches Phase::Backoff(failure) && {
            &&& failure == (if report == Report::Failed {
                step.spec_failure()
            } else {
                SetupFailure::AdapterOff
            })
            &&& Phase::Backoff(failure).spec_command() == Command::Sleep(failure.spec_backoff_ms())
            &&& failure.spec_backoff_ms() == SHORT_BACKOFF_MS || failure.spec_backoff_ms()
                == LONG_BACKOFF_MS
            &&& Phase::Backoff(failure).spec_advance(elapsed) == Phase::spec_start()
        },
{
}

/// When the discovery stream ends, a new epoch starts at once.
pub proof fn lemma_stream_end_restarts_epoch(report: Report)
    ensures
        Phase::Routing.spec_advance(report) == Phase::spec_start(),
        Phase::spec_start().spec_command() == Command::Perform(SetupStep::OpenSession),
{
}

/// Routing is entered only from the last setup step, and only when it
/// completed.
pub proof fn lemma_routing_entered_from_last_step(phase: Phase, report: Report)
    ensures
        phase.spec_advance(report) == Phase::Routing <==> phase == Phase::Setup(
            SetupStep::StartDiscovery,
        ) && report == Report::Completed,
{
}

/// Whatever was reported, if the controller is routing then the last five
/// reports were the five setup steps completing, in order, from the start of
/// an epoch.
pub proof fn lemma_routing_follows_full_setup(phase: Phase, reports: Seq<Report>)
    requires
        phase == Phase::spec_start(),
        run(phase, reports) == Phase::Routing,
    ensures
        reports.len() >= 5,
        run(phase, reports.take(reports.len() - 5)) == Phase::spec_start(),
        forall|i: int| reports.len() - 5 <= i < reports.len() ==> reports[i] == Report::Completed,
{
    lemma_step_reached_by_completions(phase, reports);
}

/// If the controller stands before a setup step, the steps before it in the
/// epoch have just completed, and before them an epoch started.
proof fn lemma_step_reached_by_completions(phase: Phase, reports: Seq<Report>)
    requires
        phase == Phase::spec_start(),
    ensures
        run(phase, reports) matches Phase::Setup(step) ==> {
            &&& reports.len() >= step.spec_index()
            &&& run(phase, reports.take(reports.len() - step.spec_index())) == Phase::spec_start()
            &&& forall|i: int|
                reports.len() - step.spec_index() <= i < reports.len() ==> reports[i]
                    == Report::Completed
        },
        run(phase, reports) == Phase::Routing ==> {
            &&& reports.len() >= 5
            &&& run(phase, reports.take(reports.len() - 5)) == Phase::spec_start()
            &&& forall|i: int| reports.len() - 5 <= i < reports.len() ==> reports[i] == Report::Completed
        },
    decreases reports.len(),
{
    if reports.len() == 0 {
        assert(reports.take(0) == reports);
    } else {
        let before = reports.drop_last();
        lemma_step_reached_by_completions(phase, before);
        let reached = run(phase, reports);
        let previous = run(phase, before);
        assert(reached == previous.spec_advance(reports.last()));
        assert(reports.take(reports.len() as int) == reports);
        match reached {
            Phase::Setup(step) => {
                if step == SetupStep::OpenSession {
                } else {
                    let k = step.spec_index();
                    assert(previous matches Phase::Setup(prior) && prior.spec_index() + 1 == k);
                    assert(before.take(before.len() - (k - 1)) == reports.take(reports.len() - k));
                }
            },
            Phase::Routing => {
                assert(previous == Phase::Setup(SetupStep::StartDiscovery));
                assert(before.take(before.len() - 4) == reports.take(reports.len() - 5));
            },
            Phase::Backoff(_) => {},
        }
    }
}

} // verus!
