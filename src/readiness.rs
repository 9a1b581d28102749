use vstd::prelude::*;

verus! {

/// Where a readiness probe stands.
#[derive(Clone, Copy, Debug, PartialEq, Eq, Structural)]
pub enum ProbePhase {
    Polling,
    Ready,
    TimedOut,
}

/// What the caller observed and reports to the probe.
#[derive(Clone, Copy, Debug, PartialEq, Eq, Structural)]
pub enum ProbeEvent {
    /// Milliseconds elapsed since probing began, read at the top of a round.
    Clock { elapsed_ms: u64 },
    /// Whether a listening socket could be bound on the target address
    /// (when it could, the caller has already released it).
    BindAttempt { succeeded: bool },
}

/// What the caller is to do next.
#[derive(Clone, Copy, Debug, PartialEq, Eq, Structural)]
pub enum ProbeAction {
    /// Try to bind the target address and report the outcome.
    TryBind,
    /// Sleep for the given number of milliseconds, then report the clock.
    Sleep { ms: u64 },
    /// Probing is over; `ready` tells whether something is listening.
    Finished { ready: bool },
}

/// Polls an address until something listens on it, bounded by a timeout.
///
/// A failed bind means another process holds the port: the target is
/// ready. A successful bind means nothing listens yet: wait and retry.
#[derive(Clone, Copy, Debug)]
pub struct ReadinessProbe {
    pub timeout_ms: u64,
    pub poll_interval_ms: u64,
    pub phase: ProbePhase,
}

/// The phase after `event`, from `phase`, for a probe with the given timeout.
pub open spec fn next_phase(phase: ProbePhase, timeout_ms: u64, event: ProbeEvent) -> ProbePhase {
    match phase {
        ProbePhase::Polling => match event {
            ProbeEvent::Clock { elapsed_ms } => if elapsed_ms >= timeout_ms {
                ProbePhase::TimedOut
            } else {
                ProbePhase::Polling
            },
            ProbeEvent::BindAttempt { succeeded } => if succeeded {
                ProbePhase::Polling
            } else {
                ProbePhase::Ready
            },
        },
        _ => phase,
    }
}

/// The phase reached after a whole sequence of events.
pub open spec fn phase_after(phase: ProbePhase, timeout_ms: u64, events: Seq<ProbeEvent>) -> ProbePhase
    decreases events.len(),
{
    if events.len() == 0 {
        phase
    } else {
        next_phase(phase_after(phase, timeout_ms, events.drop_last()), timeout_ms, events.last())
    }
}

impl ReadinessProbe {
    pub fn new(timeout_ms: u64, poll_interval_ms: u64) -> (r: ReadinessProbe)
        ensures
            r.timeout_ms == timeout_ms,
            r.poll_interval_ms == poll_interval_ms,
            r.phase == ProbePhase::Polling,
    {
        ReadinessProbe { timeout_ms, poll_interval_ms, phase: ProbePhase::Polling }
    }

    /// Takes one observation and says what to do next.
    pub fn step(&mut self, event: ProbeEvent) -> (r: ProbeAction)
        ensures
            final(self).timeout_ms == old(self).timeout_ms,
            final(self).poll_interval_ms == old(self).poll_interval_ms,
            final(self).phase == next_phase(old(self).phase, old(self).timeout_ms, event),
            r == match final(self).phase {
                ProbePhase::Ready => ProbeAction::Finished { ready: true },
                ProbePhase::TimedOut => ProbeAction::Finished { ready: false },
                ProbePhase::Polling => match event {
                    ProbeEvent::Clock { .. } => ProbeAction::TryBind,
                    ProbeEvent::BindAttempt { .. } => ProbeAction::Sleep {
                        ms: old(self).poll_interval_ms,
                    },
                },
            },
    {
        if let ProbePhase::Polling = self.phase {
            match event {
                ProbeEvent::Clock { elapsed_ms } => {
                    if elapsed_ms >= self.timeout_ms {
                        self.phase = ProbePhase::TimedOut;
                    }
                },
                ProbeEvent::BindAttempt { succeeded } => {
                    if !succeeded {
                        self.phase = ProbePhase::Ready;
                    }
                },
            }
        }
        match self.phase {
            ProbePhase::Ready => ProbeAction::Finished { ready: true },
            ProbePhase::TimedOut => ProbeAction::Finished { ready: false },
            ProbePhase::Polling => match event {
                ProbeEvent::Clock { .. } => ProbeAction::TryBind,
                ProbeEvent::BindAttempt { .. } => ProbeAction::Sleep { ms: self.poll_interval_ms },
            },
        }
    }
}

/// A probe that started polling is ready only after a bind attempt failed,
/// and has timed out only after a clock reading at or past the timeout;
/// once it is ready or timed out, it stays so.
pub proof fn lemma_probe_outcome_is_witnessed(timeout_ms: u64, events: Seq<ProbeEvent>)
    ensures
        phase_after(ProbePhase::Polling, timeout_ms, events) == ProbePhase::Ready ==> exists|i: int|
            0 <= i < events.len() && #[trigger] events[i] == (ProbeEvent::BindAttempt {
                succeeded: false,
            }),
        phase_after(ProbePhase::Polling, timeout_ms, events) == ProbePhase::TimedOut ==> exists|
            i: int,
        |
            0 <= i < events.len() && (#[trigger] events[i] matches ProbeEvent::Clock { elapsed_ms }
                && elapsed_ms >= timeout_ms),
        forall|more: Seq<ProbeEvent>|
            phase_after(ProbePhase::Polling, timeout_ms, events) != ProbePhase::Polling
                ==> #[trigger] phase_after(ProbePhase::Polling, timeout_ms, events + more)
                == phase_after(ProbePhase::Polling, timeout_ms, events),
    decreases events.len(),
{
    if events.len() > 0 {
        let prev = events.drop_last();
        lemma_probe_outcome_is_witnessed(timeout_ms, prev);
        let p = phase_after(ProbePhase::Polling, timeout_ms, prev);
        if p == ProbePhase::Ready {
            let i = choose|i: int|
                0 <= i < prev.len() && #[trigger] prev[i] == (ProbeEvent::BindAttempt {
                    succeeded: false,
                });
            assert(events[i] == prev[i]);
        } else if p == ProbePhase::TimedOut {
            let i = choose|i: int|
                0 <= i < prev.len() && (#[trigger] prev[i] matches ProbeEvent::Clock { elapsed_ms }
                    && elapsed_ms >= timeout_ms);
            assert(events[i] == prev[i]);
        } else {
            let last = events.len() - 1;
            assert(events[last] == events.last());
        }
    }
    assert forall|more: Seq<ProbeEvent>|
        phase_after(ProbePhase::Polling, timeout_ms, events) != ProbePhase::Polling
            implies #[trigger] phase_after(ProbePhase::Polling, timeout_ms, events + more)
            == phase_after(ProbePhase::Polling, timeout_ms, events) by {
        lemma_terminal_phase_stays(ProbePhase::Polling, timeout_ms, events, more);
    }
}

proof fn lemma_terminal_phase_stays(
    phase: ProbePhase,
    timeout_ms: u64,
    events: Seq<ProbeEvent>,
    more: Seq<ProbeEvent>,
)
    requires
        phase_after(phase, timeout_ms, events) != ProbePhase::Polling,
    ensures
        phase_after(phase, timeout_ms, events + more) == phase_after(phase, timeout_ms, events),
    decreases more.len(),
{
    if more.len() == 0 {
        assert(events + more =~= events);
    } else {
        lemma_terminal_phase_stays(phase, timeout_ms, events, more.drop_last());
        assert((events + more).drop_last() =~= events + more.drop_last());
    }
}

} // verus!
