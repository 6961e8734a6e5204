//! The watch state machine: one long-poll cycle at a time, classified into
//! an outcome, with exponential backoff under failure and a fixed short
//! delay otherwise.
//!
//! The stream driver owns a [`WatchState`], hands every poll outcome to
//! [`poll_step`], and performs the returned action: deliver a payload, sleep
//! and poll again, or stop. [`drive_stream`] runs that loop over a recorded
//! sequence of outcomes, which makes the stream behaviour testable without a
//! live transport.

use vstd::prelude::*;

use crate::model::{Revision, Watchable};

verus! {

/// Hard cap on the consecutive-failure counter; it bounds the backoff base
/// at `2^(MAX_FAILED_COUNT + 1)` seconds.
pub const MAX_FAILED_COUNT: u64 = 5;

/// The delay owed after a delivered change before the next poll, in
/// milliseconds.
pub const DELAY_ON_SUCCESS_MS: u64 = 1000;

/// The delay before re-polling after an unchanged or timed-out poll, in
/// milliseconds.
pub const RETRY_DELAY_MS: u64 = 1000;

/// The default long-poll wait timeout, in seconds.
pub const DEFAULT_TIMEOUT_SECS: u64 = 60;

/// The mutable state of one watch stream, exclusively owned by its driver.
pub struct WatchState {
    /// The revision of the last delivered change, if any.
    pub last_known_revision: Option<Revision>,
    /// Consecutive failed polls, capped at [`MAX_FAILED_COUNT`].
    pub consecutive_failures: u64,
    /// A delay owed before the next poll after a delivered change, in
    /// milliseconds.
    pub post_success_delay_ms: Option<u64>,
}

/// The mathematical image of a [`WatchState`].
pub struct WatchStateModel {
    pub last_known_revision: Option<int>,
    pub consecutive_failures: nat,
    pub post_success_delay_ms: Option<int>,
}

impl View for WatchState {
    type V = WatchStateModel;

    open spec fn view(&self) -> WatchStateModel {
        WatchStateModel {
            last_known_revision: match self.last_known_revision {
                Option::Some(r) => Option::Some(r@),
                Option::None => Option::None,
            },
            consecutive_failures: self.consecutive_failures as nat,
            post_success_delay_ms: match self.post_success_delay_ms {
                Option::Some(d) => Option::Some(d as int),
                Option::None => Option::None,
            },
        }
    }
}

impl WatchState {
    /// The state invariant: the failure counter never exceeds its cap.
    pub open spec fn wf(&self) -> bool {
        self.consecutive_failures <= MAX_FAILED_COUNT
    }

    /// A fresh stream state: no known revision, no failures, no owed delay.
    pub fn new() -> (s: WatchState)
        ensures
            s.wf(),
            s@.last_known_revision is None,
            s@.consecutive_failures == 0,
            s@.post_success_delay_ms is None,
    {
        WatchState {
            last_known_revision: Option::None,
            consecutive_failures: 0,
            post_success_delay_ms: Option::None,
        }
    }

    /// A stream state seeded with an already known revision. A fresh stream
    /// knows no revision and so may re-report the server's current state on
    /// its first poll; seeding the baseline avoids that first notification.
    pub fn seeded(last_known_revision: Revision) -> (s: WatchState)
        ensures
            s.wf(),
            s@.last_known_revision == Option::Some(last_known_revision@),
            s@.consecutive_failures == 0,
            s@.post_success_delay_ms is None,
    {
        WatchState {
            last_known_revision: Option::Some(last_known_revision),
            consecutive_failures: 0,
            post_success_delay_ms: Option::None,
        }
    }
}

/// One classified poll result, handed to the state machine by the driver.
pub enum PollEvent<D> {
    /// The request could not be built; the only unrecoverable case.
    RequestBuildError,
    /// The client-side timeout around the long-poll window elapsed.
    Timeout,
    /// The transport could not reach the server.
    ConnectionError,
    /// The server answered with a failing status code.
    ServerError(u16),
    /// A success body could not be decoded.
    DecodeError,
    /// Status 304: the long poll elapsed with no change.
    NotModified,
    /// A change, decoded to its payload.
    Changed(D),
}

/// What the driver does after one poll.
pub enum StepAction<D> {
    /// Deliver this payload to the consumer; the owed post-success delay is
    /// recorded in the state.
    Emit(D),
    /// Sleep this many milliseconds, then poll again.
    Sleep(u64),
    /// Stop the stream; no further value is produced.
    Terminate,
}

/// The outcome of one poll cycle, at the specification level.
pub enum PollOutcome {
    /// A change was reported at this revision.
    Changed(int),
    /// The poll elapsed with no change.
    Unchanged,
    /// The client gave up around the server's long-poll window.
    TimedOut,
    /// A recoverable failure: connection, server status, or decoding.
    TransientFailure,
    /// The request could not be built; the stream must stop.
    FatalFailure,
}

/// The outcome a poll event classifies into.
pub open spec fn outcome_of<D: Watchable>(e: PollEvent<D>) -> PollOutcome {
    match e {
        PollEvent::RequestBuildError => PollOutcome::FatalFailure,
        PollEvent::Timeout => PollOutcome::TimedOut,
        PollEvent::ConnectionError => PollOutcome::TransientFailure,
        PollEvent::ServerError(_) => PollOutcome::TransientFailure,
        PollEvent::DecodeError => PollOutcome::TransientFailure,
        PollEvent::NotModified => PollOutcome::Unchanged,
        PollEvent::Changed(d) => PollOutcome::Changed(d.rev()),
    }
}

/// The failure counter after one more failure: incremented below the cap,
/// unchanged at it.
pub open spec fn bumped_failures(failures: nat) -> nat {
    if failures < MAX_FAILED_COUNT {
        failures + 1
    } else {
        failures
    }
}

/// The state after one poll cycle. The owed post-success delay is consumed
/// when the poll is issued, so it is `None` afterwards unless this very poll
/// delivered a change.
pub open spec fn next_state_model(s: WatchStateModel, o: PollOutcome) -> WatchStateModel {
    match o {
        PollOutcome::Changed(r) => WatchStateModel {
            last_known_revision: Option::Some(r),
            consecutive_failures: 0,
            post_success_delay_ms: Option::Some(DELAY_ON_SUCCESS_MS as int),
        },
        PollOutcome::Unchanged => WatchStateModel {
            consecutive_failures: 0,
            post_success_delay_ms: Option::None,
            ..s
        },
        PollOutcome::TimedOut => WatchStateModel { post_success_delay_ms: Option::None, ..s },
        PollOutcome::TransientFailure => WatchStateModel {
            consecutive_failures: bumped_failures(s.consecutive_failures),
            post_success_delay_ms: Option::None,
            ..s
        },
        PollOutcome::FatalFailure => WatchStateModel { post_success_delay_ms: Option::None, ..s },
    }
}

/// The backoff base after `failures` consecutive failures, in milliseconds:
/// it starts at 2000 and doubles with each failure, which is
/// `(2 << failures) * 1000`.
pub open spec fn backoff_base_ms(failures: nat) -> nat
    decreases failures,
{
    if failures == 0 {
        2000
    } else {
        2 * backoff_base_ms((failures - 1) as nat)
    }
}

/// The backoff base doubles with each consecutive failure, from a base of
/// two seconds.
pub proof fn lemma_backoff_base_doubles(failures: nat)
    ensures
        backoff_base_ms(0) == 2000,
        backoff_base_ms(failures + 1) == 2 * backoff_base_ms(failures),
{
}

/// The backoff base at each failure count up to the cap, and its bound:
/// once the counter stands at the cap, the base never exceeds 64000 ms.
pub proof fn lemma_backoff_base_values()
    ensures
        backoff_base_ms(0) == 2000,
        backoff_base_ms(1) == 4000,
        backoff_base_ms(2) == 8000,
        backoff_base_ms(3) == 16000,
        backoff_base_ms(4) == 32000,
        backoff_base_ms(5) == 64000,
        forall|k: nat| k <= MAX_FAILED_COUNT ==> #[trigger] backoff_base_ms(k) <= 64000,
{
    reveal_with_fuel(backoff_base_ms, 7);
    assert(backoff_base_ms(1) == 4000);
    assert(backoff_base_ms(2) == 8000);
    assert(backoff_base_ms(3) == 16000);
    assert(backoff_base_ms(4) == 32000);
    assert(backoff_base_ms(5) == 64000);
    assert forall|k: nat| k <= MAX_FAILED_COUNT implies #[trigger] backoff_base_ms(k)
        <= 64000 by {
        if k == 0 {
        } else if k == 1 {
        } else if k == 2 {
        } else if k == 3 {
        } else if k == 4 {
        } else {
            assert(k == 5);
        }
    }
}

/// Relies on fastrand::u64: a uniform draw from the given range; nothing
/// more is assumed of the value than its bound.
#[verifier::external_body]
fn random_below(bound: u64) -> (r: u64)
    requires
        bound >= 1,
    ensures
        r < bound,
{
    fastrand::u64(0..bound)
}

/// The retry delay after `failed_count` consecutive failures: the backoff
/// base plus a uniform jitter below one fifth of it, so the delay lies in
/// `[base, 1.2 * base)`.
pub fn delay_time_for(failed_count: u64) -> (d: u64)
    requires
        failed_count <= MAX_FAILED_COUNT,
    ensures
        backoff_base_ms(failed_count as nat) <= d,
        d < backoff_base_ms(failed_count as nat) + backoff_base_ms(failed_count as nat) / 5,
{
    proof {
        lemma_backoff_base_values();
    }
    let base: u64 = if failed_count == 0 {
        2000
    } else if failed_count == 1 {
        4000
    } else if failed_count == 2 {
        8000
    } else if failed_count == 3 {
        16000
    } else if failed_count == 4 {
        32000
    } else {
        64000
    };
    let jitter: u64 = random_below(base / 5);
    base + jitter
}

/// Performs the state update and decides the action for one classified poll
/// outcome. The caller must have consumed any owed post-success delay before
/// issuing the poll this event answers.
pub fn poll_step<D: Watchable>(state: &mut WatchState, event: PollEvent<D>) -> (action: StepAction<
    D,
>)
    requires
        old(state).wf(),
        old(state).post_success_delay_ms is None,
    ensures
        final(state).wf(),
        final(state)@ == next_state_model(old(state)@, outcome_of(event)),
        match outcome_of(event) {
            PollOutcome::Changed(_) => (event matches PollEvent::Changed(p) && action matches
                StepAction::Emit(d) && d == p),
            PollOutcome::Unchanged => (action matches StepAction::Sleep(ms) && ms
                == RETRY_DELAY_MS),
            PollOutcome::TimedOut => (action matches StepAction::Sleep(ms) && ms
                == RETRY_DELAY_MS),
            PollOutcome::TransientFailure => (action matches StepAction::Sleep(ms)
                && backoff_base_ms(final(state)@.consecutive_failures) <= ms < backoff_base_ms(
                final(state)@.consecutive_failures,
            ) + backoff_base_ms(final(state)@.consecutive_failures) / 5),
            PollOutcome::FatalFailure => action is Terminate,
        },
{
    match event {
        PollEvent::RequestBuildError => StepAction::Terminate,
        PollEvent::Timeout => StepAction::Sleep(RETRY_DELAY_MS),
        PollEvent::NotModified => {
            state.consecutive_failures = 0;
            StepAction::Sleep(RETRY_DELAY_MS)
        },
        PollEvent::ConnectionError | PollEvent::ServerError(_) | PollEvent::DecodeError => {
            if state.consecutive_failures < MAX_FAILED_COUNT {
                state.consecutive_failures = state.consecutive_failures + 1;
            }
            let ms: u64 = delay_time_for(state.consecutive_failures);
            StepAction::Sleep(ms)
        },
        PollEvent::Changed(d) => {
            state.last_known_revision = Option::Some(d.revision());
            state.consecutive_failures = 0;
            state.post_success_delay_ms = Option::Some(DELAY_ON_SUCCESS_MS);
            StepAction::Emit(d)
        },
    }
}

/// Takes the delay owed after a delivered change, leaving none owed.
pub fn take_post_success_delay(state: &mut WatchState) -> (d: Option<u64>)
    ensures
        d == old(state).post_success_delay_ms,
        final(state).post_success_delay_ms is None,
        final(state).last_known_revision == old(state).last_known_revision,
        final(state).consecutive_failures == old(state).consecutive_failures,
{
    let d = state.post_success_delay_ms;
    state.post_success_delay_ms = Option::None;
    d
}

/// The classified outcomes of a sequence of poll events, in order.
pub open spec fn outcomes_of<D: Watchable>(es: Seq<PollEvent<D>>) -> Seq<PollOutcome> {
    es.map(|i: int, e: PollEvent<D>| outcome_of(e))
}

/// The revisions carried by a sequence of payloads, in order.
pub open spec fn revs_of<D: Watchable>(ds: Seq<D>) -> Seq<int> {
    ds.map(|i: int, d: D| d.rev())
}

/// The state after a stream driver has worked through `outcomes`, stopping
/// at the first fatal one.
pub open spec fn run_state(s: WatchStateModel, outcomes: Seq<PollOutcome>) -> WatchStateModel
    decreases outcomes.len(),
{
    if outcomes.len() == 0 {
        s
    } else {
        let s2 = next_state_model(s, outcomes[0]);
        if outcomes[0] is FatalFailure {
            s2
        } else {
            run_state(s2, outcomes.drop_first())
        }
    }
}

/// The revisions a stream delivers over `outcomes`: one per changed poll,
/// in order, none from the first fatal outcome on.
pub open spec fn emitted_revisions(outcomes: Seq<PollOutcome>) -> Seq<int>
    decreases outcomes.len(),
{
    if outcomes.len() == 0 {
        Seq::empty()
    } else {
        match outcomes[0] {
            PollOutcome::FatalFailure => Seq::empty(),
            PollOutcome::Changed(r) => seq![r] + emitted_revisions(outcomes.drop_first()),
            _ => emitted_revisions(outcomes.drop_first()),
        }
    }
}

/// True when `outcomes` holds a fatal outcome.
pub open spec fn has_fatal(outcomes: Seq<PollOutcome>) -> bool
    decreases outcomes.len(),
{
    if outcomes.len() == 0 {
        false
    } else {
        outcomes[0] is FatalFailure || has_fatal(outcomes.drop_first())
    }
}

/// Over any interleaving of changed and unchanged polls, the
/// consecutive-failure counter stands at zero after each of them.
pub proof fn lemma_ok_run_keeps_failures_zero(s: WatchStateModel, outcomes: Seq<PollOutcome>)
    requires
        outcomes.len() > 0,
        forall|i: int|
            0 <= i < outcomes.len() ==> ((#[trigger] outcomes[i]) is Changed || outcomes[i]
                is Unchanged),
    ensures
        run_state(s, outcomes).consecutive_failures == 0,
    decreases outcomes.len(),
{
    let s2 = next_state_model(s, outcomes[0]);
    assert(outcomes[0] is Changed || outcomes[0] is Unchanged);
    if outcomes.len() > 1 {
        assert forall|i: int| 0 <= i < outcomes.drop_first().len() implies ((
        #[trigger] outcomes.drop_first()[i]) is Changed || outcomes.drop_first()[i]
            is Unchanged) by {
            assert(outcomes.drop_first()[i] == outcomes[i + 1]);
        }
        lemma_ok_run_keeps_failures_zero(s2, outcomes.drop_first());
    }
}

/// A contiguous run of failures counts up one by one until the cap and
/// stays there.
pub proof fn lemma_failure_run_counts(s: WatchStateModel, outcomes: Seq<PollOutcome>)
    requires
        s.consecutive_failures <= MAX_FAILED_COUNT,
        forall|i: int| 0 <= i < outcomes.len() ==> (#[trigger] outcomes[i]) is TransientFailure,
    ensures
        run_state(s, outcomes).consecutive_failures == if s.consecutive_failures + outcomes.len()
            <= MAX_FAILED_COUNT {
            s.consecutive_failures + outcomes.len()
        } else {
            MAX_FAILED_COUNT as nat
        },
    decreases outcomes.len(),
{
    if outcomes.len() > 0 {
        let s2 = next_state_model(s, outcomes[0]);
        lemma_failure_run_counts(s2, outcomes.drop_first());
    }
}

/// The failure counter never exceeds its cap, and so the backoff base never
/// exceeds 64000 ms, whatever outcomes arrive.
pub proof fn lemma_failures_never_exceed_cap(s: WatchStateModel, outcomes: Seq<PollOutcome>)
    requires
        s.consecutive_failures <= MAX_FAILED_COUNT,
    ensures
        run_state(s, outcomes).consecutive_failures <= MAX_FAILED_COUNT,
        backoff_base_ms(run_state(s, outcomes).consecutive_failures) <= 64000,
    decreases outcomes.len(),
{
    lemma_backoff_base_values();
    if outcomes.len() > 0 {
        let s2 = next_state_model(s, outcomes[0]);
        if !(outcomes[0] is FatalFailure) {
            lemma_failures_never_exceed_cap(s2, outcomes.drop_first());
        }
    }
}

/// A delivered change leaves exactly the fixed one-second delay owed before
/// the next poll.
pub proof fn lemma_changed_owes_delay(s: WatchStateModel, r: int)
    ensures
        next_state_model(s, PollOutcome::Changed(r)).post_success_delay_ms == Option::Some(
            DELAY_ON_SUCCESS_MS as int,
        ),
{
}

/// True when every changed outcome reports a revision at or after the
/// baseline its poll supplied, which the long-poll protocol grants.
pub open spec fn respects_baselines(s: WatchStateModel, outcomes: Seq<PollOutcome>) -> bool
    decreases outcomes.len(),
{
    if outcomes.len() == 0 {
        true
    } else if outcomes[0] is FatalFailure {
        true
    } else {
        let within = match outcomes[0] {
            PollOutcome::Changed(r) => match s.last_known_revision {
                Option::Some(l) => l <= r,
                Option::None => true,
            },
            _ => true,
        };
        within && respects_baselines(next_state_model(s, outcomes[0]), outcomes.drop_first())
    }
}

/// True when the values never decrease from left to right.
pub open spec fn non_decreasing(xs: Seq<int>) -> bool {
    forall|i: int, j: int| 0 <= i <= j < xs.len() ==> xs[i] <= xs[j]
}

/// Across one stream whose server reports every change at or after the
/// poll's baseline, the delivered revisions are non-decreasing, and never
/// fall below an already known revision.
pub proof fn lemma_emitted_revisions_non_decreasing(
    s: WatchStateModel,
    outcomes: Seq<PollOutcome>,
)
    requires
        respects_baselines(s, outcomes),
    ensures
        non_decreasing(emitted_revisions(outcomes)),
        s.last_known_revision matches Some(l) ==> forall|i: int|
            0 <= i < emitted_revisions(outcomes).len() ==> l <= #[trigger] emitted_revisions(
                outcomes,
            )[i],
    decreases outcomes.len(),
{
    if outcomes.len() == 0 {
    } else if outcomes[0] is FatalFailure {
    } else {
        let s2 = next_state_model(s, outcomes[0]);
        lemma_emitted_revisions_non_decreasing(s2, outcomes.drop_first());
        let tail = emitted_revisions(outcomes.drop_first());
        match outcomes[0] {
            PollOutcome::Changed(r) => {
                assert(s2.last_known_revision == Option::Some(r));
                let whole = emitted_revisions(outcomes);
                assert(whole =~= seq![r] + tail);
                assert forall|i: int, j: int| 0 <= i <= j < whole.len() implies whole[i]
                    <= whole[j] by {
                    if 1 <= i {
                        assert(whole[i] == tail[i - 1]);
                        assert(whole[j] == tail[j - 1]);
                    } else if i == 0 && 1 <= j {
                        assert(whole[j] == tail[j - 1]);
                        assert(r <= tail[j - 1]);
                    }
                }
            },
            _ => {
                assert(s2.last_known_revision == s.last_known_revision);
            },
        }
    }
}

/// From a fatal outcome on, nothing further is delivered: the emissions of
/// the whole sequence are those before the fatal outcome.
pub proof fn lemma_fatal_stops_stream(outcomes: Seq<PollOutcome>, i: int)
    requires
        0 <= i < outcomes.len(),
        outcomes[i] is FatalFailure,
    ensures
        emitted_revisions(outcomes) == emitted_revisions(outcomes.take(i)),
    decreases i,
{
    if i == 0 {
        assert(outcomes.take(0) =~= Seq::<PollOutcome>::empty());
    } else {
        assert(outcomes.drop_first()[i - 1] == outcomes[i]);
        lemma_fatal_stops_stream(outcomes.drop_first(), i - 1);
        assert(outcomes.take(i).drop_first() =~= outcomes.drop_first().take(i - 1));
        assert(outcomes.take(i)[0] == outcomes[0]);
    }
}

/// What driving one stream over a recorded sequence of poll outcomes did.
pub struct DriveLog<D> {
    /// The payloads delivered to the consumer, in order.
    pub emitted: Vec<D>,
    /// The sleeps performed between polls, in order, in milliseconds.
    pub sleeps: Vec<u64>,
    /// True when the stream stopped on the fatal outcome.
    pub terminated: bool,
}

/// Drives one stream over a recorded sequence of poll outcomes: consumes any
/// owed delay before each poll, hands the outcome to the state machine, and
/// performs the returned action. The delivered revisions are exactly those
/// of [`emitted_revisions`]; every sleep is at least the fixed retry delay
/// and below 1.2 times the largest backoff base.
pub fn drive_stream<D: Watchable>(state: &mut WatchState, events: Vec<PollEvent<D>>) -> (log:
    DriveLog<D>)
    requires
        old(state).wf(),
        old(state).post_success_delay_ms matches Some(d) ==> d == DELAY_ON_SUCCESS_MS,
    ensures
        final(state).wf(),
        revs_of(log.emitted@) == emitted_revisions(outcomes_of(events@)),
        final(state)@ == run_state(old(state)@, outcomes_of(events@)),
        log.terminated == has_fatal(outcomes_of(events@)),
        forall|i: int|
            0 <= i < log.sleeps@.len() ==> RETRY_DELAY_MS <= #[trigger] log.sleeps@[i] < 76800,
{
    let mut rest = events;
    let mut emitted: Vec<D> = Vec::new();
    let mut sleeps: Vec<u64> = Vec::new();
    let mut terminated = false;
    let ghost s0 = state@;
    let ghost full = outcomes_of(events@);
    while rest.len() > 0
        invariant_except_break
            state.wf(),
            state@.post_success_delay_ms matches Some(d) ==> d == DELAY_ON_SUCCESS_MS,
            !terminated,
            revs_of(emitted@) + emitted_revisions(outcomes_of(rest@)) == emitted_revisions(full),
            run_state(state@, outcomes_of(rest@)) == run_state(s0, full),
            has_fatal(outcomes_of(rest@)) == has_fatal(full),
            forall|i: int|
                0 <= i < sleeps@.len() ==> RETRY_DELAY_MS <= #[trigger] sleeps@[i] < 76800,
        ensures
            state.wf(),
            revs_of(emitted@) =~= emitted_revisions(full),
            state@ == run_state(s0, full),
            terminated == has_fatal(full),
            forall|i: int|
                0 <= i < sleeps@.len() ==> RETRY_DELAY_MS <= #[trigger] sleeps@[i] < 76800,
        decreases rest.len(),
    {
        let ghost pre = outcomes_of(rest@);
        if let Option::Some(d) = take_post_success_delay(state) {
            sleeps.push(d);
        }
        let e = rest.remove(0);
        proof {
            assert(outcomes_of(rest@) =~= pre.drop_first());
            assert(pre[0] == outcome_of(e));
        }
        let action = poll_step(state, e);
        match action {
            StepAction::Emit(d) => {
                proof {
                    assert(revs_of(emitted@.push(d)) =~= revs_of(emitted@) + seq![d.rev()]);
                }
                emitted.push(d);
            },
            StepAction::Sleep(ms) => {
                proof {
                    lemma_backoff_base_values();
                }
                sleeps.push(ms);
            },
            StepAction::Terminate => {
                terminated = true;
                proof {
                    assert(emitted_revisions(pre) =~= Seq::<int>::empty());
                    assert(revs_of(emitted@) =~= emitted_revisions(full));
                }
                break ;
            },
        }
    }
    DriveLog { emitted, sleeps, terminated }
}

} // verus!
