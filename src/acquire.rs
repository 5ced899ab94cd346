//! The acquisition of one remote object as a state machine.
//!
//! Each attempt inspects the local partial file, probes the remote size,
//! decides between "already complete", resuming and starting afresh, opens a
//! byte stream from the first missing byte and hands it to the writer. A
//! failed attempt is retried after the backoff delay while the policy allows
//! and the failure is transient. The machine names each piece of outside work
//! as an [`Action`]; whoever runs it performs the work and answers with an
//! [`Event`].

use vstd::prelude::*;
use crate::retry::DownloadRetryConfig;
use crate::source::{http_open_spec, http_probe_spec, OpenOutcome, RemoteObjectInfo, TransferError};

verus! {

/// Where an acquisition stands.
#[derive(Clone, Copy, Debug, PartialEq, Eq)]
pub enum Phase {
    /// Waiting for the size of the local partial file.
    Inspect,
    /// Waiting for the probe of the remote object.
    Probe,
    /// Waiting for the byte stream to be opened.
    Open,
    /// Waiting for the writer to drain the stream into the local file.
    Transfer,
    /// Waiting out the delay before the next attempt.
    Backoff,
    /// Done, successfully or not.
    Finished,
}

/// What happened to the outside work that the last action named.
#[derive(Debug, PartialEq, Eq)]
pub enum Event {
    /// Size in bytes of the local file (0 when absent), or why it could not be read.
    Inspected(Result<u64, TransferError>),
    Probed(Result<RemoteObjectInfo, TransferError>),
    Opened(Result<OpenOutcome, TransferError>),
    /// The writer reached the end of the stream, or failed.
    Transferred(Result<(), TransferError>),
    /// The backoff delay has passed.
    Waited,
}

/// Outside work to perform next, or the end of the acquisition.
#[derive(Clone, Debug, PartialEq, Eq)]
pub enum Action {
    /// Read the size of the local file.
    InspectLocal,
    /// Ask the source for the object's size.
    Probe,
    /// Ask the source for the object's bytes from offset `from` on
    /// (a plain request when `from` is 0).
    OpenStream { from: u64 },
    /// Write the stream to the local file: appended when `existing > 0`,
    /// else into a truncated file; progress runs from `existing` to `total`.
    Transfer { existing: u64, total: u64 },
    /// Sleep `secs` seconds before the next attempt.
    Wait { secs: u64 },
    /// The local file holds the complete object.
    Complete,
    /// The acquisition failed after `attempts` attempts, the last with `error`.
    Fail { error: TransferError, attempts: u64 },
}

/// The state of one acquisition.
#[derive(Clone, Copy, Debug, PartialEq, Eq)]
pub struct Acquisition {
    pub policy: DownloadRetryConfig,
    /// Number of the current attempt, from zero.
    pub attempt: u32,
    /// Bytes already in the local file at the start of the current attempt.
    pub existing: u64,
    /// Remote size learned by the current attempt's probe (0 = unknown).
    pub total: u64,
    pub phase: Phase,
}

/// Whether `e` answers the work that a machine in state `s` waits for.
pub open spec fn accepts_spec(s: Acquisition, e: Event) -> bool {
    match s.phase {
        Phase::Inspect => e is Inspected,
        Phase::Probe => e is Probed,
        Phase::Open => e is Opened,
        Phase::Transfer => e is Transferred,
        Phase::Backoff => e is Waited,
        Phase::Finished => false,
    }
}

/// The local file already holds the whole object.
pub open spec fn already_complete(existing: u64, total: u64) -> bool {
    existing == total && total > 0
}

/// The step after the current attempt failed with `err`: wait and retry when
/// the failure is transient and retries are left, else give up.
pub open spec fn on_failure(s: Acquisition, err: TransferError) -> (Acquisition, Action) {
    if err.retryable_spec() && s.policy.should_retry_spec(s.attempt as nat) {
        (
            Acquisition { phase: Phase::Backoff, ..s },
            Action::Wait { secs: s.policy.delay_spec(s.attempt as nat) as u64 },
        )
    } else {
        (
            Acquisition { phase: Phase::Finished, ..s },
            Action::Fail { error: err, attempts: (s.attempt + 1) as u64 },
        )
    }
}

pub open spec fn finish(s: Acquisition) -> (Acquisition, Action) {
    (Acquisition { phase: Phase::Finished, ..s }, Action::Complete)
}

/// The transition function: the next state and action after event `e`.
pub open spec fn next(s: Acquisition, e: Event) -> (Acquisition, Action) {
    match (s.phase, e) {
        (Phase::Inspect, Event::Inspected(Ok(k))) => (
            Acquisition { existing: k, total: 0, phase: Phase::Probe, ..s },
            Action::Probe,
        ),
        (Phase::Probe, Event::Probed(Ok(info))) => if already_complete(
            s.existing,
            info.total_size,
        ) {
            finish(Acquisition { total: info.total_size, ..s })
        } else {
            (
                Acquisition { total: info.total_size, phase: Phase::Open, ..s },
                Action::OpenStream { from: s.existing },
            )
        },
        (Phase::Open, Event::Opened(Ok(OpenOutcome::AlreadyComplete))) => finish(s),
        (Phase::Open, Event::Opened(Ok(OpenOutcome::Streaming))) => (
            Acquisition { phase: Phase::Transfer, ..s },
            Action::Transfer { existing: s.existing, total: s.total },
        ),
        (Phase::Transfer, Event::Transferred(Ok(()))) => finish(s),
        (Phase::Inspect, Event::Inspected(Err(err))) => on_failure(s, err),
        (Phase::Probe, Event::Probed(Err(err))) => on_failure(s, err),
        (Phase::Open, Event::Opened(Err(err))) => on_failure(s, err),
        (Phase::Transfer, Event::Transferred(Err(err))) => on_failure(s, err),
        (Phase::Backoff, Event::Waited) => (
            Acquisition { attempt: (s.attempt + 1) as u32, existing: 0, total: 0, phase: Phase::Inspect, ..s },
            Action::InspectLocal,
        ),
        _ => (s, Action::InspectLocal),
    }
}

/// The state at the start of an acquisition under `policy`.
pub open spec fn initial(policy: DownloadRetryConfig) -> Acquisition {
    Acquisition { policy, attempt: 0, existing: 0, total: 0, phase: Phase::Inspect }
}

/// The machine's invariant: the attempt counter never passes the retry bound.
pub open spec fn wf(s: Acquisition) -> bool {
    s.attempt <= s.policy.max_retries && (s.phase is Backoff ==> s.attempt < s.policy.max_retries)
}

/// The states and actions after feeding `events` to a machine in state `s`.
pub open spec fn run(s: Acquisition, events: Seq<Event>) -> (Acquisition, Seq<Action>)
    decreases events.len(),
{
    if events.len() == 0 {
        (s, Seq::empty())
    } else {
        let (s1, a) = next(s, events[0]);
        let (s2, rest) = run(s1, events.drop_first());
        (s2, seq![a] + rest)
    }
}

impl Acquisition {
    /// A fresh acquisition under `policy`, and the first action to perform.
    pub fn new(policy: DownloadRetryConfig) -> (r: (Acquisition, Action))
        ensures
            r.0 == initial(policy),
            r.1 == Action::InspectLocal,
            wf(r.0),
    {
        (Acquisition { policy, attempt: 0, existing: 0, total: 0, phase: Phase::Inspect }, Action::InspectLocal)
    }

    /// Whether `e` answers the work that this machine waits for.
    pub fn accepts(&self, e: &Event) -> (r: bool)
        ensures
            r == accepts_spec(*self, *e),
    {
        match (self.phase, e) {
            (Phase::Inspect, Event::Inspected(_)) => true,
            (Phase::Probe, Event::Probed(_)) => true,
            (Phase::Open, Event::Opened(_)) => true,
            (Phase::Transfer, Event::Transferred(_)) => true,
            (Phase::Backoff, Event::Waited) => true,
            _ => false,
        }
    }

    /// Whether the acquisition has ended.
    pub fn is_finished(&self) -> (r: bool)
        ensures
            r == (self.phase is Finished),
    {
        matches!(self.phase, Phase::Finished)
    }

    fn fail_or_retry(&mut self, err: TransferError) -> (r: Action)
        requires
            wf(*old(self)),
            !(old(self).phase is Backoff),
            !(old(self).phase is Finished),
        ensures
            (*final(self), r) == on_failure(*old(self), err),
            wf(*final(self)),
    {
        if err.is_retryable() && self.policy.should_retry(self.attempt) {
            let secs = self.policy.calculate_delay(self.attempt);
            self.phase = Phase::Backoff;
            Action::Wait { secs }
        } else {
            self.phase = Phase::Finished;
            Action::Fail { error: err, attempts: self.attempt as u64 + 1 }
        }
    }

    /// Advances the machine by the answer `e` to its last action.
    pub fn step(&mut self, e: Event) -> (r: Action)
        requires
            wf(*old(self)),
            accepts_spec(*old(self), e),
        ensures
            (*final(self), r) == next(*old(self), e),
            wf(*final(self)),
    {
        match e {
            Event::Inspected(Ok(k)) => {
                self.existing = k;
                self.total = 0;
                self.phase = Phase::Probe;
                Action::Probe
            },
            Event::Probed(Ok(info)) => {
                self.total = info.total_size;
                if self.existing == info.total_size && info.total_size > 0 {
                    self.phase = Phase::Finished;
                    Action::Complete
                } else {
                    self.phase = Phase::Open;
                    Action::OpenStream { from: self.existing }
                }
            },
            Event::Opened(Ok(OpenOutcome::AlreadyComplete)) => {
                self.phase = Phase::Finished;
                Action::Complete
            },
            Event::Opened(Ok(OpenOutcome::Streaming)) => {
                self.phase = Phase::Transfer;
                Action::Transfer { existing: self.existing, total: self.total }
            },
            Event::Transferred(Ok(())) => {
                self.phase = Phase::Finished;
                Action::Complete
            },
            Event::Inspected(Err(err)) => self.fail_or_retry(err),
            Event::Probed(Err(err)) => self.fail_or_retry(err),
            Event::Opened(Err(err)) => self.fail_or_retry(err),
            Event::Transferred(Err(err)) => self.fail_or_retry(err),
            Event::Waited => {
                self.attempt = self.attempt + 1;
                self.existing = 0;
                self.total = 0;
                self.phase = Phase::Inspect;
                Action::InspectLocal
            },
        }
    }
}

/// The answers of one attempt that fails at its probe with `err`.
pub open spec fn failing_attempt(err: TransferError) -> Seq<Event> {
    seq![Event::Inspected(Ok(0)), Event::Probed(Err(err))]
}

/// The answers to a run in which `retries + 1` attempts each fail at the
/// probe with `err`, with the backoff delays between them.
pub open spec fn failing_run(err: TransferError, retries: nat) -> Seq<Event>
    decreases retries,
{
    if retries == 0 {
        failing_attempt(err)
    } else {
        failing_attempt(err) + seq![Event::Waited] + failing_run(err, (retries - 1) as nat)
    }
}

/// How many of `actions` are probes, that is, how many attempts they start.
pub open spec fn count_probes(actions: Seq<Action>) -> nat
    decreases actions.len(),
{
    if actions.len() == 0 {
        0
    } else {
        (if actions[0] is Probe { 1nat } else { 0nat }) + count_probes(actions.drop_first())
    }
}

/// How many of `actions` are backoff waits.
pub open spec fn count_waits(actions: Seq<Action>) -> nat
    decreases actions.len(),
{
    if actions.len() == 0 {
        0
    } else {
        (if actions[0] is Wait { 1nat } else { 0nat }) + count_waits(actions.drop_first())
    }
}

proof fn lemma_run_unfold(s: Acquisition, e: Event, rest: Seq<Event>)
    ensures
        run(s, seq![e] + rest) == ({
            let (s1, a) = next(s, e);
            let (s2, acts) = run(s1, rest);
            (s2, seq![a] + acts)
        }),
{
    let evs = seq![e] + rest;
    assert(evs[0] == e);
    assert(evs.drop_first() == rest);
}

proof fn lemma_counts_unfold(a: Action, rest: Seq<Action>)
    ensures
        count_probes(seq![a] + rest) == (if a is Probe { 1nat } else { 0nat }) + count_probes(rest),
        count_waits(seq![a] + rest) == (if a is Wait { 1nat } else { 0nat }) + count_waits(rest),
{
    let acts = seq![a] + rest;
    assert(acts[0] == a);
    assert(acts.drop_first() == rest);
}

proof fn lemma_failing_run_from(s: Acquisition, err: TransferError, retries: nat)
    requires
        s.phase is Inspect,
        err.retryable_spec(),
        s.attempt + retries == s.policy.max_retries,
    ensures
        ({
            let (f, acts) = run(s, failing_run(err, retries));
            &&& f.phase is Finished
            &&& acts.len() == 3 * retries + 2
            &&& acts.last() == Action::Fail { error: err, attempts: (s.policy.max_retries + 1) as u64 }
            &&& count_probes(acts) == retries + 1
            &&& count_waits(acts) == retries
        }),
    decreases retries,
{
    let e1 = Event::Inspected(Ok(0));
    let e2 = Event::Probed(Err(err));
    let (s1, a1) = next(s, e1);
    let (s2, a2) = next(s1, e2);
    assert(failing_attempt(err) == seq![e1] + seq![e2]);
    if retries == 0 {
        lemma_run_unfold(s, e1, seq![e2]);
        lemma_run_unfold(s1, e2, Seq::empty());
        assert(seq![e2] + Seq::<Event>::empty() == seq![e2]);
        let acts = seq![a1] + (seq![a2] + Seq::<Action>::empty());
        lemma_counts_unfold(a1, seq![a2] + Seq::<Action>::empty());
        lemma_counts_unfold(a2, Seq::<Action>::empty());
        assert(acts.last() == a2);
    } else {
        let rest = failing_run(err, (retries - 1) as nat);
        let e3 = Event::Waited;
        let (s3, a3) = next(s2, e3);
        assert(failing_run(err, retries) == seq![e1] + (seq![e2] + (seq![e3] + rest)));
        lemma_run_unfold(s, e1, seq![e2] + (seq![e3] + rest));
        lemma_run_unfold(s1, e2, seq![e3] + rest);
        lemma_run_unfold(s2, e3, rest);
        lemma_failing_run_from(s3, err, (retries - 1) as nat);
        let tail = run(s3, rest).1;
        lemma_counts_unfold(a3, tail);
        lemma_counts_unfold(a2, seq![a3] + tail);
        lemma_counts_unfold(a1, seq![a2] + (seq![a3] + tail));
        let acts = seq![a1] + (seq![a2] + (seq![a3] + tail));
        assert(acts.last() == tail.last());
    }
}

/// Retry exhaustion: when every attempt fails transiently, a policy that
/// allows `max_retries` retries makes exactly `max_retries + 1` attempts,
/// waits between consecutive attempts only, and then fails with the last
/// error, counting all attempts.
pub proof fn law_retry_exhaustion(policy: DownloadRetryConfig, err: TransferError)
    requires
        err.retryable_spec(),
    ensures
        ({
            let (f, acts) = run(initial(policy), failing_run(err, policy.max_retries as nat));
            &&& f.phase is Finished
            &&& acts.last() == Action::Fail { error: err, attempts: (policy.max_retries + 1) as u64 }
            &&& count_probes(acts) == policy.max_retries + 1
            &&& count_waits(acts) == policy.max_retries
        }),
{
    lemma_failing_run_from(initial(policy), err, policy.max_retries as nat);
}

/// Permanent-error fast path: a probe answered with status 404 ends the
/// acquisition at once, after a single attempt and without any wait,
/// whatever the retry policy and the headers.
pub proof fn law_not_found_is_final(
    policy: DownloadRetryConfig,
    existing: u64,
    content_range: Option<Seq<char>>,
    content_length: Option<Seq<char>>,
)
    ensures
        ({
            let evs = seq![
                Event::Inspected(Ok(existing)),
                Event::Probed(http_probe_spec(404, content_range, content_length)),
            ];
            &&& run(initial(policy), evs).1 == seq![
                Action::Probe,
                Action::Fail { error: TransferError::NotFound, attempts: 1 },
            ]
            &&& run(initial(policy), evs).0.phase is Finished
        }),
{
    let e1 = Event::Inspected(Ok(existing));
    let e2 = Event::Probed(http_probe_spec(404, content_range, content_length));
    let s = initial(policy);
    let s1 = next(s, e1).0;
    assert(seq![e1, e2] == seq![e1] + seq![e2]);
    lemma_run_unfold(s, e1, seq![e2]);
    lemma_run_unfold(s1, e2, Seq::empty());
    assert(seq![e2] + Seq::<Event>::empty() == seq![e2]);
    assert(seq![Action::Probe] + (seq![Action::Fail { error: TransferError::NotFound, attempts: 1 }]
        + Seq::<Action>::empty()) == seq![Action::Probe, Action::Fail { error: TransferError::NotFound, attempts: 1 }]);
}

/// Not-found ends the acquisition in any attempt, without a further wait.
pub proof fn law_not_found_never_retried(s: Acquisition)
    requires
        s.phase is Probe || s.phase is Open,
    ensures
        ({
            let e = if s.phase is Probe {
                Event::Probed(Err(TransferError::NotFound))
            } else {
                Event::Opened(Err(TransferError::NotFound))
            };
            let (f, a) = next(s, e);
            f.phase is Finished && a == Action::Fail { error: TransferError::NotFound, attempts: (s.attempt + 1) as u64 }
        }),
{
}

/// Idempotence: when the local file already holds all `total` bytes, an
/// acquisition probes once and completes, never opening a stream or
/// writing; run twice, it does the same both times.
pub proof fn law_complete_file_is_kept(policy: DownloadRetryConfig, total: u64, resume: bool)
    requires
        total > 0,
    ensures
        ({
            let evs = seq![
                Event::Inspected(Ok(total)),
                Event::Probed(Ok(RemoteObjectInfo { total_size: total, supports_range_resume: resume })),
            ];
            &&& run(initial(policy), evs).1 == seq![Action::Probe, Action::Complete]
            &&& run(initial(policy), evs).0.phase is Finished
        }),
{
    let e1 = Event::Inspected(Ok(total));
    let e2 = Event::Probed(Ok(RemoteObjectInfo { total_size: total, supports_range_resume: resume }));
    let s = initial(policy);
    let s1 = next(s, e1).0;
    assert(seq![e1, e2] == seq![e1] + seq![e2]);
    lemma_run_unfold(s, e1, seq![e2]);
    lemma_run_unfold(s1, e2, Seq::empty());
    assert(seq![e2] + Seq::<Event>::empty() == seq![e2]);
    assert(seq![Action::Probe] + (seq![Action::Complete] + Seq::<Action>::empty()) == seq![
        Action::Probe,
        Action::Complete,
    ]);
}

/// Resume correctness: with `existing < total` bytes on disk, the stream is
/// requested from byte `existing` and appended to the file; when the file
/// holds the object's first `existing` bytes and the source sends the rest,
/// the file ends up byte-identical to the whole object.
pub proof fn law_resume_from_partial(
    policy: DownloadRetryConfig,
    existing: u64,
    object: Seq<u8>,
    local: Seq<u8>,
)
    requires
        existing < object.len() <= u64::MAX,
        local == object.subrange(0, existing as int),
    ensures
        ({
            let total = object.len() as u64;
            let evs = seq![
                Event::Inspected(Ok(existing)),
                Event::Probed(Ok(RemoteObjectInfo { total_size: total, supports_range_resume: true })),
                Event::Opened(Ok(OpenOutcome::Streaming)),
            ];
            &&& run(initial(policy), evs).1 == seq![
                Action::Probe,
                Action::OpenStream { from: existing },
                Action::Transfer { existing, total },
            ]
            &&& local + object.subrange(existing as int, total as int) == object
        }),
{
    let total = object.len() as u64;
    let e1 = Event::Inspected(Ok(existing));
    let e2 = Event::Probed(Ok(RemoteObjectInfo { total_size: total, supports_range_resume: true }));
    let e3 = Event::Opened(Ok(OpenOutcome::Streaming));
    let s = initial(policy);
    let s1 = next(s, e1).0;
    let s2 = next(s1, e2).0;
    assert(seq![e1, e2, e3] == seq![e1] + (seq![e2] + seq![e3]));
    lemma_run_unfold(s, e1, seq![e2] + seq![e3]);
    lemma_run_unfold(s1, e2, seq![e3]);
    lemma_run_unfold(s2, e3, Seq::empty());
    assert(seq![e3] + Seq::<Event>::empty() == seq![e3]);
    assert(seq![Action::Probe] + (seq![Action::OpenStream { from: existing }] + (seq![
        Action::Transfer { existing, total },
    ] + Seq::<Action>::empty())) == seq![
        Action::Probe,
        Action::OpenStream { from: existing },
        Action::Transfer { existing, total },
    ]);
    assert(local + object.subrange(existing as int, total as int) == object);
}

/// A stream request answered with status 416 (range not satisfiable) ends
/// the acquisition successfully, exactly as an already complete file does:
/// nothing is written and no error is raised.
pub proof fn law_unsatisfiable_range_is_complete(s: Acquisition)
    requires
        s.phase is Open,
    ensures
        next(s, Event::Opened(http_open_spec(416))) == finish(s),
        next(s, Event::Opened(http_open_spec(416))).1 == Action::Complete,
        next(s, Event::Opened(http_open_spec(416))).0.phase is Finished,
{
}

} // verus!
