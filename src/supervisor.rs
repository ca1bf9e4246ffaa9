//! The restart policy of a forward session, as a state machine.
//!
//! The driver starts an attempt when told to, reports its end, polls the
//! shutdown signal when asked, and sleeps for the delay it is given. A session
//! restarts for as long as no shutdown is requested; the delay between
//! attempts doubles from a floor up to a ceiling. Shutdown is observed only
//! after an attempt has ended, so an attempt in flight always runs to its end.

use vstd::prelude::*;
use vstd::arithmetic::power2::{pow2, lemma_pow2_unfold};

verus! {

/// The delay before the first restart, in seconds.
pub const INITIAL_DELAY_SECS: u64 = 1;

/// The longest delay between two attempts, in seconds.
pub const MAX_DELAY_SECS: u64 = 30;

/// Where a session stands.
#[derive(Debug, Clone, Copy, PartialEq, Eq, Structural)]
pub enum Phase {
    /// Ready to start an attempt.
    Starting,
    /// An attempt is running.
    Running,
    /// An attempt has ended; the shutdown signal decides what comes next.
    Backoff,
    /// Shut down for good.
    Stopped,
}

/// What the driver reports to the session.
#[derive(Debug, Clone, Copy, PartialEq, Eq, Structural)]
pub enum SessionEvent {
    /// The driver is ready to start an attempt.
    Ready,
    /// The running attempt has ended, cleanly or not.
    AttemptEnded,
    /// The shutdown signal was polled; `requested` is whether it was given.
    ShutdownPolled { requested: bool },
}

/// What the session asks of the driver.
#[derive(Debug, Clone, Copy, PartialEq, Eq, Structural)]
pub enum SessionAction {
    /// Start one attempt of the tunnel.
    StartAttempt,
    /// Poll the shutdown signal.
    PollShutdown,
    /// Sleep this many seconds, then report `Ready`.
    Sleep { secs: u64 },
    /// Stop: the session is over.
    Halt,
    /// Nothing: the event does not apply where the session stands.
    Nothing,
}

/// The state of one forward session.
#[derive(Debug, Clone, Copy, PartialEq, Eq, Structural)]
pub struct Supervisor {
    pub phase: Phase,
    /// The delay before the next restart, in seconds.
    pub retry_delay_secs: u64,
}

/// The delay after `d`: doubled, up to the ceiling.
pub open spec fn next_delay(d: nat) -> nat {
    if 2 * d <= MAX_DELAY_SECS { 2 * d } else { MAX_DELAY_SECS as nat }
}

/// The delay that follows `n` restarts in a row.
pub open spec fn delay_after(n: nat) -> nat
    decreases n,
{
    if n == 0 { INITIAL_DELAY_SECS as nat } else { next_delay(delay_after((n - 1) as nat)) }
}

/// One transition of the session.
pub open spec fn step_spec(s: Supervisor, e: SessionEvent) -> (Supervisor, SessionAction) {
    match (s.phase, e) {
        (Phase::Stopped, _) => (s, SessionAction::Halt),
        (Phase::Starting, SessionEvent::Ready) =>
            (Supervisor { phase: Phase::Running, ..s }, SessionAction::StartAttempt),
        (Phase::Running, SessionEvent::AttemptEnded) =>
            (Supervisor { phase: Phase::Backoff, ..s }, SessionAction::PollShutdown),
        (Phase::Backoff, SessionEvent::ShutdownPolled { requested }) =>
            if requested {
                (Supervisor { phase: Phase::Stopped, ..s }, SessionAction::Halt)
            } else {
                (
                    Supervisor {
                        phase: Phase::Starting,
                        retry_delay_secs: next_delay(s.retry_delay_secs as nat) as u64,
                    },
                    SessionAction::Sleep { secs: s.retry_delay_secs },
                )
            },
        _ => (s, SessionAction::Nothing),
    }
}

/// The session after the events `es`, from `s`.
pub open spec fn run(s: Supervisor, es: Seq<SessionEvent>) -> Supervisor
    decreases es.len(),
{
    if es.len() == 0 { s } else { run(step_spec(s, es[0]).0, es.drop_first()) }
}

/// How many attempts the session starts over the events `es`, from `s`.
pub open spec fn attempts(s: Supervisor, es: Seq<SessionEvent>) -> nat
    decreases es.len(),
{
    if es.len() == 0 {
        0
    } else {
        let (s2, a) = step_spec(s, es[0]);
        (if a == SessionAction::StartAttempt { 1nat } else { 0nat }) + attempts(s2, es.drop_first())
    }
}

/// Every poll among `es` found the shutdown signal given.
pub open spec fn shutdown_given(es: Seq<SessionEvent>) -> bool {
    forall|i: int| 0 <= i < es.len() ==> !(#[trigger] es[i] == SessionEvent::ShutdownPolled { requested: false })
}

impl Supervisor {
    pub open spec fn wf(&self) -> bool {
        INITIAL_DELAY_SECS <= self.retry_delay_secs <= MAX_DELAY_SECS
    }

    /// A session that is about to start its first attempt.
    pub fn new() -> (r: Supervisor)
        ensures
            r.wf(),
            r.phase == Phase::Starting,
            r.retry_delay_secs == delay_after(0),
    {
        Supervisor { phase: Phase::Starting, retry_delay_secs: INITIAL_DELAY_SECS }
    }

    /// Takes in one event and says what the driver does next.
    pub fn step(&mut self, event: SessionEvent) -> (r: SessionAction)
        requires
            old(self).wf(),
        ensures
            final(self).wf(),
            (*final(self), r) == step_spec(*old(self), event),
    {
        match (self.phase, event) {
            (Phase::Stopped, _) => SessionAction::Halt,
            (Phase::Starting, SessionEvent::Ready) => {
                self.phase = Phase::Running;
                SessionAction::StartAttempt
            },
            (Phase::Running, SessionEvent::AttemptEnded) => {
                self.phase = Phase::Backoff;
                SessionAction::PollShutdown
            },
            (Phase::Backoff, SessionEvent::ShutdownPolled { requested }) => {
                if requested {
                    self.phase = Phase::Stopped;
                    SessionAction::Halt
                } else {
                    let secs = self.retry_delay_secs;
                    self.retry_delay_secs = if secs <= MAX_DELAY_SECS / 2 {
                        2 * secs
                    } else {
                        MAX_DELAY_SECS
                    };
                    self.phase = Phase::Starting;
                    SessionAction::Sleep { secs }
                }
            },
            _ => SessionAction::Nothing,
        }
    }

    /// Whether the session is over.
    pub fn is_stopped(&self) -> (r: bool)
        ensures
            r == (self.phase == Phase::Stopped),
    {
        self.phase == Phase::Stopped
    }
}

/// One restart: an attempt starts, ends, and the poll finds no shutdown.
pub open spec fn restart_cycle() -> Seq<SessionEvent> {
    seq![SessionEvent::Ready, SessionEvent::AttemptEnded, SessionEvent::ShutdownPolled { requested: false }]
}

/// `n` restarts in a row.
pub open spec fn restarts(n: nat) -> Seq<SessionEvent>
    decreases n,
{
    if n == 0 { Seq::empty() } else { restarts((n - 1) as nat) + restart_cycle() }
}

proof fn lemma_run_concat(s: Supervisor, a: Seq<SessionEvent>, b: Seq<SessionEvent>)
    ensures
        run(s, a + b) == run(run(s, a), b),
    decreases a.len(),
{
    if a.len() > 0 {
        assert((a + b).drop_first() =~= a.drop_first() + b);
        assert((a + b)[0] == a[0]);
        lemma_run_concat(step_spec(s, a[0]).0, a.drop_first(), b);
    } else {
        assert(a + b =~= b);
    }
}

/// After `n` restarts in a row from a new session, the session is ready for
/// its next attempt and the delay it will sleep after that attempt is
/// `delay_after(n)`: the floor doubled `n` times, capped at the ceiling.
pub proof fn lemma_restart_delays(n: nat)
    ensures
        run(Supervisor { phase: Phase::Starting, retry_delay_secs: INITIAL_DELAY_SECS }, restarts(n))
            == (Supervisor { phase: Phase::Starting, retry_delay_secs: delay_after(n) as u64 }),
        delay_after(n) <= MAX_DELAY_SECS,
    decreases n,
{
    lemma_delay_is_capped_doubling(n);
    if n > 0 {
        let m = (n - 1) as nat;
        lemma_restart_delays(m);
        lemma_delay_is_capped_doubling(m);
        let s0 = Supervisor { phase: Phase::Starting, retry_delay_secs: INITIAL_DELAY_SECS };
        lemma_run_concat(s0, restarts(m), restart_cycle());
        let s1 = Supervisor { phase: Phase::Starting, retry_delay_secs: delay_after(m) as u64 };
        let c = restart_cycle();
        let c1 = c.drop_first();
        let c2 = c1.drop_first();
        let c3 = c2.drop_first();
        assert(c[0] == SessionEvent::Ready);
        assert(c1[0] == SessionEvent::AttemptEnded);
        assert(c2[0] == SessionEvent::ShutdownPolled { requested: false });
        assert(c3 =~= Seq::<SessionEvent>::empty());
        let s2 = step_spec(s1, c[0]).0;
        let s3 = step_spec(s2, c1[0]).0;
        let s4 = step_spec(s3, c2[0]).0;
        assert(run(s1, c) == run(s2, c1));
        assert(run(s2, c1) == run(s3, c2));
        assert(run(s3, c2) == run(s4, c3));
        assert(run(s4, c3) == s4);
        assert(s4 == (Supervisor { phase: Phase::Starting, retry_delay_secs: delay_after(n) as u64 }));
    }
}

/// The delay that follows `n` restarts in a row is the floor doubled `n`
/// times, but never more than the ceiling.
pub proof fn lemma_delay_is_capped_doubling(n: nat)
    ensures
        delay_after(n) == if INITIAL_DELAY_SECS * pow2(n) <= MAX_DELAY_SECS {
            (INITIAL_DELAY_SECS * pow2(n)) as nat
        } else {
            MAX_DELAY_SECS as nat
        },
        delay_after(n) <= MAX_DELAY_SECS,
    decreases n,
{
    reveal(pow2);
    if n == 0 {
        assert(pow2(0) == 1) by {
            vstd::arithmetic::power::lemma_pow0(2);
        }
    } else {
        lemma_delay_is_capped_doubling((n - 1) as nat);
        lemma_pow2_unfold(n);
    }
}

/// A session stays stopped: once stopped, no event starts an attempt.
pub proof fn lemma_stopped_is_final(s: Supervisor, es: Seq<SessionEvent>)
    requires
        s.phase == Phase::Stopped,
    ensures
        run(s, es).phase == Phase::Stopped,
        attempts(s, es) == 0,
    decreases es.len(),
{
    if es.len() > 0 {
        lemma_stopped_is_final(step_spec(s, es[0]).0, es.drop_first());
    }
}

proof fn lemma_no_attempt_after_one_ended(s: Supervisor, es: Seq<SessionEvent>)
    requires
        s.phase != Phase::Starting,
        shutdown_given(es),
    ensures
        attempts(s, es) == 0,
    decreases es.len(),
{
    if es.len() > 0 {
        assert(es[0] != SessionEvent::ShutdownPolled { requested: false });
        let rest = es.drop_first();
        assert(shutdown_given(rest)) by {
            assert forall|i: int| 0 <= i < rest.len() implies !(#[trigger] rest[i]
                == SessionEvent::ShutdownPolled { requested: false }) by {
                assert(rest[i] == es[i + 1]);
            }
        }
        lemma_no_attempt_after_one_ended(step_spec(s, es[0]).0, rest);
    }
}

/// Once the shutdown signal is given, the session starts at most one more
/// attempt before it stops: whatever the driver reports, as long as every
/// poll finds the signal, no second attempt is started.
pub proof fn lemma_at_most_one_attempt_after_shutdown(s: Supervisor, es: Seq<SessionEvent>)
    requires
        shutdown_given(es),
    ensures
        attempts(s, es) <= 1,
    decreases es.len(),
{
    if es.len() > 0 {
        let rest = es.drop_first();
        assert(shutdown_given(rest)) by {
            assert forall|i: int| 0 <= i < rest.len() implies !(#[trigger] rest[i]
                == SessionEvent::ShutdownPolled { requested: false }) by {
                assert(rest[i] == es[i + 1]);
            }
        }
        let s2 = step_spec(s, es[0]).0;
        if s2.phase == Phase::Starting {
            lemma_at_most_one_attempt_after_shutdown(s2, rest);
        } else {
            lemma_no_attempt_after_one_ended(s2, rest);
        }
    }
}

} // verus!
