//! The network task's state machine. It brings the wireless link up, keeps
//! watch over it, hands a reading to the uploader while the link lives, and
//! starts over when the link is lost. The machine only decides: each step
//! takes what happened (an [`Event`]) and says what to do next (an
//! [`Action`]); associating, waiting, probing and sending are the caller's.

use crate::connectivity::Address;
use crate::connectivity::ConnectivityStatus;
use crate::reading::TemperatureReading;
use crate::store::SharedStateStore;
use crate::store::StoreSnapshot;
use crate::telemetry::sample_of;
use crate::telemetry::TelemetrySample;
use crate::telemetry::TransportError;
use vstd::prelude::*;

verus! {

/// Time between a failed attempt to connect and the next one, in
/// milliseconds. It is the same after every failure, however many there were.
pub const RETRY_DELAY_MS: u32 = 1000;

/// Time between two liveness probes of a connected link, in milliseconds.
pub const PROBE_PERIOD_MS: u32 = 10000;

/// Why an attempt to connect failed.
#[derive(Clone, Copy, Debug, PartialEq, Eq, Structural)]
pub enum LinkError {
    /// The access point did not take the node.
    Association,
    /// No address was leased.
    AddressLease,
    /// The clock could not be synchronised.
    ClockSync,
}

/// Where the machine stands. A phase says what the machine waits for.
#[derive(Clone, Copy, Debug, PartialEq, Eq, Structural)]
pub enum Phase {
    /// No link and no attempt: before the start, or after the link was lost.
    Idle,
    /// Waiting for the association to end.
    Associating,
    /// Associated; waiting for the address lease.
    Leasing,
    /// This address is leased; waiting for the clock to be synchronised.
    Synchronizing(Address),
    /// The last attempt failed; waiting for the retry delay to pass.
    Backoff,
    /// Connected with this address; waiting for the probe period to pass.
    Monitoring(Address),
    /// Connected with this address; waiting for the probe's answer.
    Probing(Address),
    /// Connected with this address; waiting for the upload to end.
    Uploading(Address),
}

/// What happened since the last step.
#[derive(Clone, Copy, Debug, PartialEq, Eq, Structural)]
pub enum Event {
    /// The task starts, or starts over.
    Started,
    /// The association succeeded.
    Associated,
    /// The lease ended with this address; the unset address means that none
    /// was leased.
    LeaseAcquired(Address),
    /// The clock is synchronised.
    ClockSynced,
    /// The stage of the connect sequence that was asked for failed.
    StageFailed,
    /// The time that was asked for has passed.
    TimerElapsed,
    /// The probe found the link alive; this is the address read on that
    /// occasion, unset if none could be read.
    ProbeAlive(Address),
    /// The probe found the link dead.
    ProbeDead,
    /// The upload succeeded.
    UploadSucceeded,
    /// The upload failed.
    UploadFailed(TransportError),
}

/// What the caller is to do next. Each action ends in an event, which goes
/// into the next step.
#[derive(Clone, Copy, Debug, PartialEq, Eq, Structural)]
pub enum Action {
    /// Let go of what is left of the link; ends in [`Event::Started`].
    Restart,
    /// Associate with the access point; ends in [`Event::Associated`] or
    /// [`Event::StageFailed`].
    Associate,
    /// Wait for the address lease; ends in [`Event::LeaseAcquired`] or
    /// [`Event::StageFailed`].
    AcquireLease,
    /// Synchronise the clock; ends in [`Event::ClockSynced`] or
    /// [`Event::StageFailed`].
    SyncClock,
    /// Sleep for so many milliseconds; ends in [`Event::TimerElapsed`].
    Wait(u32),
    /// Probe the link; ends in [`Event::ProbeAlive`] or [`Event::ProbeDead`].
    Probe,
    /// Send this sample; ends in [`Event::UploadSucceeded`] or
    /// [`Event::UploadFailed`].
    Upload(TelemetrySample),
}

/// What a step found worth logging.
#[derive(Clone, Copy, Debug, PartialEq, Eq, Structural)]
pub enum Report {
    /// An attempt to connect failed and will be repeated.
    LinkFailed(LinkError),
    /// The link was lost.
    LinkLost,
    /// An upload failed; the link is not in doubt.
    UploadFailed(TransportError),
}

/// The result of one step.
#[derive(Clone, Copy, Debug, PartialEq, Eq)]
pub struct Step {
    /// What to do next.
    pub action: Action,
    /// What to log, if anything.
    pub report: Option<Report>,
}

/// The rule that every phase keeps: an address that a phase holds is set.
pub open spec fn phase_wf(phase: Phase) -> bool {
    match phase {
        Phase::Synchronizing(a) => a.is_set(),
        Phase::Monitoring(a) => a.is_set(),
        Phase::Probing(a) => a.is_set(),
        Phase::Uploading(a) => a.is_set(),
        _ => true,
    }
}

/// The link status that a phase reports.
pub open spec fn status_of(phase: Phase) -> ConnectivityStatus {
    match phase {
        Phase::Idle => ConnectivityStatus::Disconnected,
        Phase::Associating => ConnectivityStatus::Connecting,
        Phase::Leasing => ConnectivityStatus::Connecting,
        Phase::Synchronizing(_) => ConnectivityStatus::Connecting,
        Phase::Backoff => ConnectivityStatus::Connecting,
        Phase::Monitoring(a) => ConnectivityStatus::Connected(a),
        Phase::Probing(a) => ConnectivityStatus::Connected(a),
        Phase::Uploading(a) => ConnectivityStatus::Connected(a),
    }
}

/// The upload flag that a phase reports: set while an upload is under way.
pub open spec fn upload_flag_of(phase: Phase) -> bool {
    phase is Uploading
}

/// The phase that follows `phase` on `event`. An event that the phase does
/// not wait for changes nothing.
pub open spec fn next_phase(phase: Phase, event: Event) -> Phase {
    match (phase, event) {
        (Phase::Idle, Event::Started) => Phase::Associating,
        (Phase::Associating, Event::Associated) => Phase::Leasing,
        (Phase::Associating, Event::StageFailed) => Phase::Backoff,
        (Phase::Leasing, Event::LeaseAcquired(a)) => if a.is_set() {
            Phase::Synchronizing(a)
        } else {
            Phase::Backoff
        },
        (Phase::Leasing, Event::StageFailed) => Phase::Backoff,
        (Phase::Synchronizing(a), Event::ClockSynced) => Phase::Monitoring(a),
        (Phase::Synchronizing(_), Event::StageFailed) => Phase::Backoff,
        (Phase::Backoff, Event::TimerElapsed) => Phase::Associating,
        (Phase::Monitoring(a), Event::TimerElapsed) => Phase::Probing(a),
        (Phase::Probing(a), Event::ProbeAlive(b)) => if b.is_set() {
            Phase::Uploading(b)
        } else {
            Phase::Uploading(a)
        },
        (Phase::Probing(_), Event::ProbeDead) => Phase::Idle,
        (Phase::Uploading(a), Event::UploadSucceeded) => Phase::Monitoring(a),
        (Phase::Uploading(a), Event::UploadFailed(_)) => Phase::Monitoring(a),
        _ => phase,
    }
}

/// What the step from `phase` on `event` gives to log.
pub open spec fn report_of(phase: Phase, event: Event) -> Option<Report> {
    match (phase, event) {
        (Phase::Associating, Event::StageFailed) => Some(
            Report::LinkFailed(LinkError::Association),
        ),
        (Phase::Leasing, Event::LeaseAcquired(a)) => if a.is_set() {
            None
        } else {
            Some(Report::LinkFailed(LinkError::AddressLease))
        },
        (Phase::Leasing, Event::StageFailed) => Some(Report::LinkFailed(LinkError::AddressLease)),
        (Phase::Synchronizing(_), Event::StageFailed) => Some(
            Report::LinkFailed(LinkError::ClockSync),
        ),
        (Phase::Probing(_), Event::ProbeDead) => Some(Report::LinkLost),
        (Phase::Uploading(_), Event::UploadFailed(e)) => Some(Report::UploadFailed(e)),
        _ => None,
    }
}

/// The action that a phase waits on. The sample of an upload is taken from
/// `reading`, in whole degrees.
pub open spec fn pending_action(phase: Phase, reading: TemperatureReading) -> Action {
    match phase {
        Phase::Idle => Action::Restart,
        Phase::Associating => Action::Associate,
        Phase::Leasing => Action::AcquireLease,
        Phase::Synchronizing(_) => Action::SyncClock,
        Phase::Backoff => Action::Wait(RETRY_DELAY_MS),
        Phase::Monitoring(_) => Action::Wait(PROBE_PERIOD_MS),
        Phase::Probing(_) => Action::Probe,
        Phase::Uploading(_) => Action::Upload(sample_of(reading)),
    }
}

/// What the store holds after a step that leads to `phase`, given what it
/// held before: the link status and the upload flag are those of the phase,
/// the temperature is untouched.
pub open spec fn store_after_step(held: StoreSnapshot, phase: Phase) -> StoreSnapshot {
    StoreSnapshot {
        temperature: held.temperature,
        connectivity: status_of(phase),
        upload_in_flight: upload_flag_of(phase),
    }
}

/// The phase after a run of events, one step for each.
pub open spec fn phase_after(start: Phase, events: Seq<Event>) -> Phase
    decreases events.len(),
{
    if events.len() == 0 {
        start
    } else {
        next_phase(phase_after(start, events.drop_last()), events.last())
    }
}

/// The events of one attempt to connect that fails for the reason `error`,
/// up to and including the end of the retry delay. `address` is the address
/// that the lease gave where the attempt got that far.
pub open spec fn failed_attempt(error: LinkError, address: Address) -> Seq<Event> {
    match error {
        LinkError::Association => seq![Event::StageFailed, Event::TimerElapsed],
        LinkError::AddressLease => seq![Event::Associated, Event::StageFailed, Event::TimerElapsed],
        LinkError::ClockSync => seq![
            Event::Associated,
            Event::LeaseAcquired(address),
            Event::StageFailed,
            Event::TimerElapsed,
        ],
    }
}

/// The events of a run of failed attempts, one for each of `errors`.
pub open spec fn failed_attempts(errors: Seq<LinkError>, address: Address) -> Seq<Event>
    decreases errors.len(),
{
    if errors.len() == 0 {
        Seq::<Event>::empty()
    } else {
        failed_attempts(errors.drop_last(), address) + failed_attempt(errors.last(), address)
    }
}

/// The network task's state.
pub struct NetworkManager {
    phase: Phase,
}

impl NetworkManager {
    #[verifier::type_invariant]
    spec fn well_formed(self) -> bool {
        phase_wf(self.phase)
    }

    /// Where the machine stands.
    pub closed spec fn phase(&self) -> Phase {
        self.phase
    }

    /// The machine before the task starts: idle, the link disconnected.
    pub fn new() -> (m: Self)
        ensures
            m.phase() == Phase::Idle,
    {
        NetworkManager { phase: Phase::Idle }
    }

    /// Where the machine stands. The phase keeps [`phase_wf`], whatever steps
    /// led to it.
    pub fn current_phase(&self) -> (p: Phase)
        ensures
            p == self.phase(),
            phase_wf(p),
    {
        proof {
            use_type_invariant(self);
        }
        self.phase
    }

    /// The link status to report. It is never a connected status with an
    /// unset address.
    pub fn status(&self) -> (s: ConnectivityStatus)
        ensures
            s == status_of(self.phase()),
            s.wf(),
    {
        proof {
            use_type_invariant(self);
        }
        match self.phase {
            Phase::Idle => ConnectivityStatus::Disconnected,
            Phase::Associating => ConnectivityStatus::Connecting,
            Phase::Leasing => ConnectivityStatus::Connecting,
            Phase::Synchronizing(_) => ConnectivityStatus::Connecting,
            Phase::Backoff => ConnectivityStatus::Connecting,
            Phase::Monitoring(a) => ConnectivityStatus::Connected(a),
            Phase::Probing(a) => ConnectivityStatus::Connected(a),
            Phase::Uploading(a) => ConnectivityStatus::Connected(a),
        }
    }

    /// The upload flag to report.
    pub fn upload_in_flight(&self) -> (b: bool)
        ensures
            b == upload_flag_of(self.phase()),
    {
        match self.phase {
            Phase::Uploading(_) => true,
            _ => false,
        }
    }

    /// Moves the machine on by one event and says what the move gives to log.
    pub fn advance(&mut self, event: Event) -> (report: Option<Report>)
        ensures
            final(self).phase() == next_phase(old(self).phase(), event),
            report == report_of(old(self).phase(), event),
    {
        proof {
            use_type_invariant(&*self);
        }
        let mut report: Option<Report> = None;
        let next = match (self.phase, event) {
            (Phase::Idle, Event::Started) => Phase::Associating,
            (Phase::Associating, Event::Associated) => Phase::Leasing,
            (Phase::Associating, Event::StageFailed) => {
                report = Some(Report::LinkFailed(LinkError::Association));
                Phase::Backoff
            },
            (Phase::Leasing, Event::LeaseAcquired(a)) => {
                if a.is_set() {
                    Phase::Synchronizing(a)
                } else {
                    report = Some(Report::LinkFailed(LinkError::AddressLease));
                    Phase::Backoff
                }
            },
            (Phase::Leasing, Event::StageFailed) => {
                report = Some(Report::LinkFailed(LinkError::AddressLease));
                Phase::Backoff
            },
            (Phase::Synchronizing(a), Event::ClockSynced) => Phase::Monitoring(a),
            (Phase::Synchronizing(_), Event::StageFailed) => {
                report = Some(Report::LinkFailed(LinkError::ClockSync));
                Phase::Backoff
            },
            (Phase::Backoff, Event::TimerElapsed) => Phase::Associating,
            (Phase::Monitoring(a), Event::TimerElapsed) => Phase::Probing(a),
            (Phase::Probing(a), Event::ProbeAlive(b)) => {
                if b.is_set() {
                    Phase::Uploading(b)
                } else {
                    Phase::Uploading(a)
                }
            },
            (Phase::Probing(_), Event::ProbeDead) => {
                report = Some(Report::LinkLost);
                Phase::Idle
            },
            (Phase::Uploading(a), Event::UploadSucceeded) => Phase::Monitoring(a),
            (Phase::Uploading(a), Event::UploadFailed(e)) => {
                report = Some(Report::UploadFailed(e));
                Phase::Monitoring(a)
            },
            (phase, _) => phase,
        };
        self.phase = next;
        report
    }

    /// The action that the machine waits on, with `reading` as the reading to
    /// upload where the action is an upload.
    pub fn pending(&self, reading: TemperatureReading) -> (action: Action)
        ensures
            action == pending_action(self.phase(), reading),
    {
        match self.phase {
            Phase::Idle => Action::Restart,
            Phase::Associating => Action::Associate,
            Phase::Leasing => Action::AcquireLease,
            Phase::Synchronizing(_) => Action::SyncClock,
            Phase::Backoff => Action::Wait(RETRY_DELAY_MS),
            Phase::Monitoring(_) => Action::Wait(PROBE_PERIOD_MS),
            Phase::Probing(_) => Action::Probe,
            Phase::Uploading(_) => Action::Upload(TelemetrySample::from_reading(reading)),
        }
    }

    /// One step of the machine: moves on by `event` and says what to do next
    /// and what to log. `reading` is the reading to upload where the next
    /// action is an upload.
    pub fn step(&mut self, event: Event, reading: TemperatureReading) -> (step: Step)
        ensures
            final(self).phase() == next_phase(old(self).phase(), event),
            step.action == pending_action(final(self).phase(), reading),
            step.report == report_of(old(self).phase(), event),
    {
        let report = self.advance(event);
        let action = self.pending(reading);
        Step { action, report }
    }

    /// One step of the machine against the shared store: moves on by `event`,
    /// stores the link status and the upload flag of the new phase, and takes
    /// the temperature that an upload is to carry from the store, which it
    /// leaves as it was.
    pub fn run_step(&mut self, store: &mut SharedStateStore, event: Event) -> (step: Step)
        ensures
            final(self).phase() == next_phase(old(self).phase(), event),
            step.report == report_of(old(self).phase(), event),
            step.action == pending_action(final(self).phase(), old(store)@.temperature),
            final(store)@ == store_after_step(old(store)@, final(self).phase()),
    {
        let report = self.advance(event);
        let status = self.status();
        let stored = store.set_connectivity(status);
        assert(stored);
        store.set_upload_flag(self.upload_in_flight());
        let reading = store.get_temperature();
        let action = self.pending(reading);
        Step { action, report }
    }
}

/// A step keeps the rule of the phases, so the status that the machine
/// reports after it is never a connected status with an unset address.
pub proof fn lemma_step_keeps_rule(phase: Phase, event: Event)
    requires
        phase_wf(phase),
    ensures
        phase_wf(next_phase(phase, event)),
        status_of(next_phase(phase, event)).wf(),
{
}

/// What a step leaves in the store keeps the rules of the shared state: the
/// temperature is untouched, the link status is never a connected status with
/// an unset address, and the upload flag is set only while the link is
/// connected.
pub proof fn lemma_step_keeps_store_rules(held: StoreSnapshot, phase: Phase, event: Event)
    requires
        phase_wf(phase),
    ensures
        ({
            let after = store_after_step(held, next_phase(phase, event));
            &&& after.temperature == held.temperature
            &&& after.connectivity.wf()
            &&& after.upload_in_flight ==> after.connectivity is Connected
            &&& store_after_step(held, phase).connectivity.may_become(after.connectivity)
        }),
{
}

/// Whatever happens after the start, the machine reports no connected status
/// with an unset address.
pub proof fn lemma_reachable_status_is_set(events: Seq<Event>)
    ensures
        phase_wf(phase_after(Phase::Idle, events)),
        status_of(phase_after(Phase::Idle, events)).wf(),
    decreases events.len(),
{
    if events.len() > 0 {
        lemma_reachable_status_is_set(events.drop_last());
        lemma_step_keeps_rule(phase_after(Phase::Idle, events.drop_last()), events.last());
    }
}

/// The reported status moves in one order only: from disconnected to
/// connecting, from connecting to connected, from connected to disconnected.
/// No step takes a disconnected link to connected, or a connected link to
/// connecting.
pub proof fn lemma_status_moves_in_order(phase: Phase, event: Event)
    ensures
        status_of(phase).may_become(status_of(next_phase(phase, event))),
{
}

/// Only a dead probe takes a connected link down: a failed upload, or any
/// other event, leaves it connected.
pub proof fn lemma_only_probe_failure_disconnects(phase: Phase, event: Event)
    requires
        status_of(phase) is Connected,
        !(status_of(next_phase(phase, event)) is Connected),
    ensures
        phase is Probing,
        event == Event::ProbeDead,
        next_phase(phase, event) == Phase::Idle,
{
}

/// An upload, however it ends, leaves the link connected with the address it
/// had, clears the upload flag, and has the machine wait for the next probe.
pub proof fn lemma_upload_end_clears_flag(
    address: Address,
    event: Event,
    reading: TemperatureReading,
)
    requires
        event == Event::UploadSucceeded || event is UploadFailed,
    ensures
        next_phase(Phase::Uploading(address), event) == Phase::Monitoring(address),
        status_of(next_phase(Phase::Uploading(address), event)) == ConnectivityStatus::Connected(
            address,
        ),
        !upload_flag_of(next_phase(Phase::Uploading(address), event)),
        pending_action(next_phase(Phase::Uploading(address), event), reading) == Action::Wait(
            PROBE_PERIOD_MS,
        ),
{
}

/// The upload flag is set exactly while the pending action is an upload, and
/// then the link is connected.
pub proof fn lemma_flag_marks_upload(phase: Phase, reading: TemperatureReading)
    ensures
        upload_flag_of(phase) <==> pending_action(phase, reading) is Upload,
        upload_flag_of(phase) ==> status_of(phase) is Connected,
{
}

/// A step asks for an upload only in answer to a live probe, and the sample
/// is that of the reading taken at that step.
pub proof fn lemma_upload_follows_live_probe(
    phase: Phase,
    event: Event,
    reading: TemperatureReading,
)
    requires
        !(phase is Uploading),
        pending_action(next_phase(phase, event), reading) is Upload,
    ensures
        phase is Probing,
        event is ProbeAlive,
        pending_action(next_phase(phase, event), reading) == Action::Upload(sample_of(reading)),
{
}

/// When the probe of a connected link fails, the machine reports the link
/// disconnected with the upload flag clear and asks for a restart; the start
/// that follows is a fresh attempt: connecting, from the association on.
pub proof fn lemma_probe_failure_restarts(address: Address, reading: TemperatureReading)
    ensures
        ({
            let lost = next_phase(Phase::Probing(address), Event::ProbeDead);
            let again = next_phase(lost, Event::Started);
            &&& status_of(lost) == ConnectivityStatus::Disconnected
            &&& !upload_flag_of(lost)
            &&& report_of(Phase::Probing(address), Event::ProbeDead) == Some(Report::LinkLost)
            &&& pending_action(lost, reading) == Action::Restart
            &&& status_of(again) == ConnectivityStatus::Connecting
            &&& !upload_flag_of(again)
            &&& pending_action(again, reading) == Action::Associate
        }),
{
}

/// Running through two runs of events in a row is running through their
/// concatenation.
pub proof fn lemma_phase_after_concat(start: Phase, first: Seq<Event>, second: Seq<Event>)
    ensures
        phase_after(start, first + second) == phase_after(phase_after(start, first), second),
    decreases second.len(),
{
    if second.len() == 0 {
        assert(first + second =~= first);
    } else {
        lemma_phase_after_concat(start, first, second.drop_last());
        assert((first + second).drop_last() =~= first + second.drop_last());
        assert((first + second).last() == second.last());
    }
}

/// One failed attempt, whatever went wrong in it, ends where it began: the
/// machine is about to associate again.
pub proof fn lemma_failed_attempt_returns(error: LinkError, address: Address)
    ensures
        phase_after(Phase::Associating, failed_attempt(error, address)) == Phase::Associating,
{
    let events = failed_attempt(error, address);
    reveal_with_fuel(phase_after, 5);
    match error {
        LinkError::Association => {
            assert(events.drop_last() =~= seq![Event::StageFailed]);
            assert(events.drop_last().drop_last() =~= Seq::<Event>::empty());
        },
        LinkError::AddressLease => {
            assert(events.drop_last() =~= seq![Event::Associated, Event::StageFailed]);
            assert(events.drop_last().drop_last() =~= seq![Event::Associated]);
            assert(events.drop_last().drop_last().drop_last() =~= Seq::<Event>::empty());
        },
        LinkError::ClockSync => {
            let e3 = events.drop_last();
            let e2 = e3.drop_last();
            let e1 = e2.drop_last();
            assert(e3 =~= seq![
                Event::Associated,
                Event::LeaseAcquired(address),
                Event::StageFailed,
            ]);
            assert(e2 =~= seq![Event::Associated, Event::LeaseAcquired(address)]);
            assert(e1 =~= seq![Event::Associated]);
            assert(e1.drop_last() =~= Seq::<Event>::empty());
        },
    }
}

/// Failed attempts never end the task: after any number of them, for whatever
/// reasons, the machine still reports the link as connecting and is about to
/// associate again, and the delay before each new attempt was the same.
pub proof fn lemma_retries_are_unbounded(
    errors: Seq<LinkError>,
    address: Address,
    reading: TemperatureReading,
)
    ensures
        phase_after(Phase::Associating, failed_attempts(errors, address)) == Phase::Associating,
        status_of(phase_after(Phase::Associating, failed_attempts(errors, address)))
            == ConnectivityStatus::Connecting,
        pending_action(
            phase_after(Phase::Associating, failed_attempts(errors, address)),
            reading,
        ) == Action::Associate,
        pending_action(Phase::Backoff, reading) == Action::Wait(RETRY_DELAY_MS),
    decreases errors.len(),
{
    if errors.len() > 0 {
        lemma_retries_are_unbounded(errors.drop_last(), address, reading);
        lemma_failed_attempt_returns(errors.last(), address);
        lemma_phase_after_concat(
            Phase::Associating,
            failed_attempts(errors.drop_last(), address),
            failed_attempt(errors.last(), address),
        );
    }
}

/// No telemetry before the clock is set: whenever a run from the start has
/// the link connected, the clock was synchronised at some step of the run,
/// and the link has been connected at every step since.
pub proof fn lemma_clock_synced_before_telemetry(events: Seq<Event>)
    requires
        status_of(phase_after(Phase::Idle, events)) is Connected,
    ensures
        exists|i: int|
            0 <= i < events.len() && #[trigger] events[i] == Event::ClockSynced && phase_after(
                Phase::Idle,
                events.take(i),
            ) is Synchronizing && forall|j: int|
                i < j <= events.len() ==> status_of(
                    #[trigger] phase_after(Phase::Idle, events.take(j)),
                ) is Connected,
    decreases events.len(),
{
    if events.len() == 0 {
    } else {
        let head = events.drop_last();
        let before = phase_after(Phase::Idle, head);
        let n = events.len() as int;
        assert(events.take(n) =~= events);
        assert(events.take(n - 1) =~= head);
        if status_of(before) is Connected {
            lemma_clock_synced_before_telemetry(head);
            let i = choose|i: int|
                0 <= i < head.len() && #[trigger] head[i] == Event::ClockSynced && phase_after(
                    Phase::Idle,
                    head.take(i),
                ) is Synchronizing && forall|j: int|
                    i < j <= head.len() ==> status_of(
                        #[trigger] phase_after(Phase::Idle, head.take(j)),
                    ) is Connected;
            assert(events[i] == Event::ClockSynced);
            assert(events.take(i) =~= head.take(i));
            assert forall|j: int| i < j <= events.len() implies status_of(
                #[trigger] phase_after(Phase::Idle, events.take(j)),
            ) is Connected by {
                if j < events.len() {
                    assert(events.take(j) =~= head.take(j));
                }
            }
        } else {
            assert(before is Synchronizing);
            assert(events.last() == Event::ClockSynced);
            let i = n - 1;
            assert(events[i] == Event::ClockSynced);
            assert forall|j: int| i < j <= events.len() implies status_of(
                #[trigger] phase_after(Phase::Idle, events.take(j)),
            ) is Connected by {
                assert(j == n);
            }
        }
    }
}

} // verus!
