//! Assembly of one file from several parts, fetched strictly in order.
//!
//! When the assembled file already exists nothing is fetched. Otherwise each
//! part is acquired in turn, the parts are concatenated in their order into
//! the final file, and then every part file is removed; a failed removal is
//! reported and ignored.

use vstd::prelude::*;
use crate::source::TransferError;
use crate::text::{decimal_string, decimal_text};

verus! {

/// Where an assembly stands.
#[derive(Clone, Copy, Debug, PartialEq, Eq)]
pub enum AssemblyPhase {
    /// Waiting to learn whether the final file exists.
    CheckFinal,
    /// Waiting for the part numbered `next` (from zero) to be acquired.
    Fetch,
    /// Waiting for the parts to be concatenated.
    Concatenate,
    /// Waiting for the part numbered `next` to be removed.
    Cleanup,
    Finished,
}

/// What happened to the outside work that the last action named.
#[derive(Debug, PartialEq, Eq)]
pub enum AssemblyEvent {
    FinalExists(bool),
    PartFetched(Result<(), TransferError>),
    Concatenated(Result<(), TransferError>),
    /// The removal was attempted; its outcome does not matter.
    PartRemoved,
}

/// Outside work to perform next, or the end of the assembly.
#[derive(Clone, Debug, PartialEq, Eq)]
pub enum AssemblyAction {
    /// Look for the final file.
    CheckFinal,
    /// Acquire the part numbered `index` (from zero).
    FetchPart { index: usize },
    /// Write the first `count` parts, in order, into a fresh final file.
    Concatenate { count: usize },
    /// Remove the file of the part numbered `index`.
    RemovePart { index: usize },
    Complete,
    Fail { error: TransferError },
}

/// The state of one assembly.
#[derive(Clone, Copy, Debug, PartialEq, Eq)]
pub struct Assembly {
    pub part_count: usize,
    pub next: usize,
    pub phase: AssemblyPhase,
}

pub open spec fn assembly_accepts(s: Assembly, e: AssemblyEvent) -> bool {
    match s.phase {
        AssemblyPhase::CheckFinal => e is FinalExists,
        AssemblyPhase::Fetch => e is PartFetched,
        AssemblyPhase::Concatenate => e is Concatenated,
        AssemblyPhase::Cleanup => e is PartRemoved,
        AssemblyPhase::Finished => false,
    }
}

/// Starts fetching at part `from`, or moves on to concatenation when none is left.
pub open spec fn fetch_from(s: Assembly, from: usize) -> (Assembly, AssemblyAction) {
    if from < s.part_count {
        (Assembly { next: from, phase: AssemblyPhase::Fetch, ..s }, AssemblyAction::FetchPart { index: from })
    } else {
        (
            Assembly { next: from, phase: AssemblyPhase::Concatenate, ..s },
            AssemblyAction::Concatenate { count: s.part_count },
        )
    }
}

/// Removes part `from`, or completes when none is left.
pub open spec fn remove_from(s: Assembly, from: usize) -> (Assembly, AssemblyAction) {
    if from < s.part_count {
        (Assembly { next: from, phase: AssemblyPhase::Cleanup, ..s }, AssemblyAction::RemovePart { index: from })
    } else {
        (Assembly { next: from, phase: AssemblyPhase::Finished, ..s }, AssemblyAction::Complete)
    }
}

/// The transition function of an assembly.
pub open spec fn assembly_next(s: Assembly, e: AssemblyEvent) -> (Assembly, AssemblyAction) {
    match (s.phase, e) {
        (AssemblyPhase::CheckFinal, AssemblyEvent::FinalExists(true)) => (
            Assembly { phase: AssemblyPhase::Finished, ..s },
            AssemblyAction::Complete,
        ),
        (AssemblyPhase::CheckFinal, AssemblyEvent::FinalExists(false)) => fetch_from(s, 0),
        (AssemblyPhase::Fetch, AssemblyEvent::PartFetched(Ok(()))) => fetch_from(s, (s.next + 1) as usize),
        (AssemblyPhase::Fetch, AssemblyEvent::PartFetched(Err(err))) => (
            Assembly { phase: AssemblyPhase::Finished, ..s },
            AssemblyAction::Fail { error: err },
        ),
        (AssemblyPhase::Concatenate, AssemblyEvent::Concatenated(Ok(()))) => remove_from(s, 0),
        (AssemblyPhase::Concatenate, AssemblyEvent::Concatenated(Err(err))) => (
            Assembly { phase: AssemblyPhase::Finished, ..s },
            AssemblyAction::Fail { error: err },
        ),
        (AssemblyPhase::Cleanup, AssemblyEvent::PartRemoved) => remove_from(s, (s.next + 1) as usize),
        _ => (s, AssemblyAction::CheckFinal),
    }
}

/// The invariant: the part counter stays within the parts, and points at
/// one while a part is fetched or removed.
pub open spec fn assembly_wf(s: Assembly) -> bool {
    &&& s.next <= s.part_count
    &&& (s.phase is Fetch || s.phase is Cleanup) ==> s.next < s.part_count
}

pub open spec fn assembly_initial(part_count: usize) -> Assembly {
    Assembly { part_count, next: 0, phase: AssemblyPhase::CheckFinal }
}

/// The states and actions after feeding `events` to an assembly in state `s`.
pub open spec fn assembly_run(s: Assembly, events: Seq<AssemblyEvent>) -> (Assembly, Seq<AssemblyAction>)
    decreases events.len(),
{
    if events.len() == 0 {
        (s, Seq::empty())
    } else {
        let (s1, a) = assembly_next(s, events[0]);
        let (s2, rest) = assembly_run(s1, events.drop_first());
        (s2, seq![a] + rest)
    }
}

/// The name under which part `index` (from zero) is reported: `part <index + 1>`.
pub open spec fn part_label_spec(index: usize) -> Seq<char> {
    seq!['p', 'a', 'r', 't', ' '] + decimal_text(index as nat + 1)
}

/// The name under which part `index` (from zero) is reported.
pub fn part_label(index: usize) -> (r: String)
    requires
        index < u64::MAX,
    ensures
        r@ == part_label_spec(index),
{
    let mut r = "part ".to_owned();
    let n = decimal_string(index as u64 + 1);
    r.append(n.as_str());
    proof {
        reveal_strlit("part ");
        assert(r@ =~= part_label_spec(index));
    }
    r
}

impl Assembly {
    /// A fresh assembly of `part_count` parts, and its first action.
    pub fn new(part_count: usize) -> (r: (Assembly, AssemblyAction))
        ensures
            r.0 == assembly_initial(part_count),
            r.1 == AssemblyAction::CheckFinal,
            assembly_wf(r.0),
    {
        (Assembly { part_count, next: 0, phase: AssemblyPhase::CheckFinal }, AssemblyAction::CheckFinal)
    }

    /// Whether `e` answers the work that this assembly waits for.
    pub fn accepts(&self, e: &AssemblyEvent) -> (r: bool)
        ensures
            r == assembly_accepts(*self, *e),
    {
        match (self.phase, e) {
            (AssemblyPhase::CheckFinal, AssemblyEvent::FinalExists(_)) => true,
            (AssemblyPhase::Fetch, AssemblyEvent::PartFetched(_)) => true,
            (AssemblyPhase::Concatenate, AssemblyEvent::Concatenated(_)) => true,
            (AssemblyPhase::Cleanup, AssemblyEvent::PartRemoved) => true,
            _ => false,
        }
    }

    fn fetch_from(&mut self, from: usize) -> (r: AssemblyAction)
        requires
            from <= old(self).part_count,
        ensures
            (*final(self), r) == fetch_from(*old(self), from),
            assembly_wf(*final(self)),
    {
        self.next = from;
        if from < self.part_count {
            self.phase = AssemblyPhase::Fetch;
            AssemblyAction::FetchPart { index: from }
        } else {
            self.phase = AssemblyPhase::Concatenate;
            AssemblyAction::Concatenate { count: self.part_count }
        }
    }

    fn remove_from(&mut self, from: usize) -> (r: AssemblyAction)
        requires
            from <= old(self).part_count,
        ensures
            (*final(self), r) == remove_from(*old(self), from),
            assembly_wf(*final(self)),
    {
        self.next = from;
        if from < self.part_count {
            self.phase = AssemblyPhase::Cleanup;
            AssemblyAction::RemovePart { index: from }
        } else {
            self.phase = AssemblyPhase::Finished;
            AssemblyAction::Complete
        }
    }

    /// Advances the assembly by the answer `e` to its last action.
    pub fn step(&mut self, e: AssemblyEvent) -> (r: AssemblyAction)
        requires
            assembly_wf(*old(self)),
            assembly_accepts(*old(self), e),
        ensures
            (*final(self), r) == assembly_next(*old(self), e),
            assembly_wf(*final(self)),
    {
        match e {
            AssemblyEvent::FinalExists(true) => {
                self.phase = AssemblyPhase::Finished;
                AssemblyAction::Complete
            },
            AssemblyEvent::FinalExists(false) => self.fetch_from(0),
            AssemblyEvent::PartFetched(Ok(())) => self.fetch_from(self.next + 1),
            AssemblyEvent::PartFetched(Err(err)) => {
                self.phase = AssemblyPhase::Finished;
                AssemblyAction::Fail { error: err }
            },
            AssemblyEvent::Concatenated(Ok(())) => self.remove_from(0),
            AssemblyEvent::Concatenated(Err(err)) => {
                self.phase = AssemblyPhase::Finished;
                AssemblyAction::Fail { error: err }
            },
            AssemblyEvent::PartRemoved => self.remove_from(self.next + 1),
        }
    }
}

/// `count` successful part acquisitions.
pub open spec fn fetched_ok(count: nat) -> Seq<AssemblyEvent> {
    Seq::new(count, |i: int| AssemblyEvent::PartFetched(Ok(())))
}

/// `count` part removals.
pub open spec fn removed(count: nat) -> Seq<AssemblyEvent> {
    Seq::new(count, |i: int| AssemblyEvent::PartRemoved)
}

/// The answers to an assembly of `count` parts in which everything succeeds.
pub open spec fn successful_assembly(count: nat) -> Seq<AssemblyEvent> {
    seq![AssemblyEvent::FinalExists(false)] + fetched_ok(count) + seq![
        AssemblyEvent::Concatenated(Ok(())),
    ] + removed(count)
}

proof fn lemma_assembly_run_single(s: Assembly, e: AssemblyEvent)
    ensures
        assembly_run(s, seq![e]) == (assembly_next(s, e).0, seq![assembly_next(s, e).1]),
{
    let evs = seq![e];
    assert(evs.drop_first() == Seq::<AssemblyEvent>::empty());
    let s1 = assembly_next(s, e).0;
    assert(assembly_run(s1, Seq::<AssemblyEvent>::empty()) == (s1, Seq::<AssemblyAction>::empty()));
    assert(seq![assembly_next(s, e).1] + Seq::<AssemblyAction>::empty() == seq![assembly_next(s, e).1]);
}

proof fn lemma_assembly_run_append(s: Assembly, a: Seq<AssemblyEvent>, b: Seq<AssemblyEvent>)
    ensures
        ({
            let (s1, x) = assembly_run(s, a);
            let (s2, y) = assembly_run(s1, b);
            assembly_run(s, a + b) == (s2, x + y)
        }),
    decreases a.len(),
{
    if a.len() == 0 {
        assert(a + b == b);
        assert(Seq::<AssemblyAction>::empty() + assembly_run(s, b).1 == assembly_run(s, b).1);
    } else {
        assert((a + b)[0] == a[0]);
        assert((a + b).drop_first() == a.drop_first() + b);
        let (s1, x0) = assembly_next(s, a[0]);
        lemma_assembly_run_append(s1, a.drop_first(), b);
        let (t, xs) = assembly_run(s1, a.drop_first());
        let (u, ys) = assembly_run(t, b);
        assert(seq![x0] + (xs + ys) == (seq![x0] + xs) + ys);
    }
}

proof fn lemma_fetch_phase(s: Assembly, m: nat)
    requires
        s.phase is Fetch,
        s.next + m == s.part_count,
        m >= 1,
    ensures
        ({
            let (f, acts) = assembly_run(s, fetched_ok(m));
            &&& f == Assembly { next: s.part_count, phase: AssemblyPhase::Concatenate, ..s }
            &&& acts.len() == m
            &&& forall|i: int| 0 <= i < m - 1 ==> acts[i] == AssemblyAction::FetchPart { index: (s.next + 1 + i) as usize }
            &&& acts[m - 1] == AssemblyAction::Concatenate { count: s.part_count }
        }),
    decreases m,
{
    let evs = fetched_ok(m);
    assert(evs[0] == AssemblyEvent::PartFetched(Ok(())));
    assert(evs.drop_first() == fetched_ok((m - 1) as nat));
    let (s1, a) = assembly_next(s, evs[0]);
    if m > 1 {
        lemma_fetch_phase(s1, (m - 1) as nat);
        let acts = assembly_run(s, evs).1;
        let rest = assembly_run(s1, fetched_ok((m - 1) as nat)).1;
        assert(acts == seq![a] + rest);
        assert forall|i: int| 0 <= i < m - 1 implies acts[i] == AssemblyAction::FetchPart {
            index: (s.next + 1 + i) as usize,
        } by {
            if i > 0 {
                assert(acts[i] == rest[i - 1]);
            }
        }
    } else {
        assert(fetched_ok(0) == Seq::<AssemblyEvent>::empty());
        assert(evs == seq![AssemblyEvent::PartFetched(Ok(()))]);
        lemma_assembly_run_single(s, AssemblyEvent::PartFetched(Ok(())));
    }
}

proof fn lemma_cleanup_phase(s: Assembly, m: nat)
    requires
        s.phase is Cleanup,
        s.next + m == s.part_count,
        m >= 1,
    ensures
        ({
            let (f, acts) = assembly_run(s, removed(m));
            &&& f.phase is Finished
            &&& acts.len() == m
            &&& forall|i: int| 0 <= i < m - 1 ==> acts[i] == AssemblyAction::RemovePart { index: (s.next + 1 + i) as usize }
            &&& acts[m - 1] == AssemblyAction::Complete
        }),
    decreases m,
{
    let evs = removed(m);
    assert(evs[0] == AssemblyEvent::PartRemoved);
    assert(evs.drop_first() == removed((m - 1) as nat));
    let (s1, a) = assembly_next(s, evs[0]);
    if m > 1 {
        lemma_cleanup_phase(s1, (m - 1) as nat);
        let acts = assembly_run(s, evs).1;
        let rest = assembly_run(s1, removed((m - 1) as nat)).1;
        assert(acts == seq![a] + rest);
        assert forall|i: int| 0 <= i < m - 1 implies acts[i] == AssemblyAction::RemovePart {
            index: (s.next + 1 + i) as usize,
        } by {
            if i > 0 {
                assert(acts[i] == rest[i - 1]);
            }
        }
    } else {
        assert(removed(0) == Seq::<AssemblyEvent>::empty());
        assert(evs == seq![AssemblyEvent::PartRemoved]);
        lemma_assembly_run_single(s, AssemblyEvent::PartRemoved);
    }
}

/// Multipart order: when every step succeeds, an assembly of `n` parts
/// fetches parts 0 to n-1 strictly in order, only then concatenates all
/// `n` of them, then removes every part file in order and completes.
pub proof fn law_assembly_order(n: usize)
    requires
        n >= 1,
    ensures
        ({
            let acts = assembly_run(assembly_initial(n), successful_assembly(n as nat)).1;
            &&& acts.len() == 2 * n + 2
            &&& forall|i: int| 0 <= i < n ==> acts[i] == AssemblyAction::FetchPart { index: i as usize }
            &&& acts[n as int] == AssemblyAction::Concatenate { count: n }
            &&& forall|i: int| 0 <= i < n ==> #[trigger] acts[n + 1 + i] == AssemblyAction::RemovePart { index: i as usize }
            &&& acts[2 * n + 1] == AssemblyAction::Complete
        }),
{
    let s0 = assembly_initial(n);
    let e0 = seq![AssemblyEvent::FinalExists(false)];
    let oks = fetched_ok(n as nat);
    let ec = seq![AssemblyEvent::Concatenated(Ok(()))];
    let rms = removed(n as nat);
    assert(successful_assembly(n as nat) == ((e0 + oks) + ec) + rms);
    lemma_assembly_run_append(s0, e0 + oks, ec);
    lemma_assembly_run_append(s0, (e0 + oks) + ec, rms);
    lemma_assembly_run_append(s0, e0, oks);

    lemma_assembly_run_single(s0, AssemblyEvent::FinalExists(false));
    let (s1, x0) = assembly_run(s0, e0);
    assert(x0 == seq![AssemblyAction::FetchPart { index: 0 }]);
    lemma_fetch_phase(s1, n as nat);
    let (s2, x1) = assembly_run(s1, oks);
    lemma_assembly_run_single(s2, AssemblyEvent::Concatenated(Ok(())));
    let (s3, x2) = assembly_run(s2, ec);
    assert(x2 == seq![AssemblyAction::RemovePart { index: 0 }]);
    lemma_cleanup_phase(s3, n as nat);
    let (s4, x3) = assembly_run(s3, rms);
    let acts = assembly_run(s0, successful_assembly(n as nat)).1;
    assert(acts == x0 + x1 + x2 + x3);
    assert forall|i: int| 0 <= i < n implies acts[i] == AssemblyAction::FetchPart { index: i as usize } by {
        if i > 0 {
            assert(acts[i] == x1[i - 1]);
        }
    }
    assert(acts[n as int] == x1[n - 1]);
    assert forall|i: int| 0 <= i < n implies #[trigger] acts[n + 1 + i] == AssemblyAction::RemovePart {
        index: i as usize,
    } by {
        if i > 0 {
            assert(acts[n + 1 + i] == x3[i - 1]);
        }
    }
    assert(acts[2 * n + 1] == x3[n - 1]);
}

/// An assembly whose final file already exists completes at once,
/// fetching no part.
pub proof fn law_existing_assembly_is_kept(n: usize)
    ensures
        assembly_run(assembly_initial(n), seq![AssemblyEvent::FinalExists(true)]).1 == seq![
            AssemblyAction::Complete,
        ],
{
    lemma_assembly_run_single(assembly_initial(n), AssemblyEvent::FinalExists(true));
}

} // verus!
